//! The audio output device: how its kind is told from its name and
//! transport, and the glyphs shown for it. Asking the system which device
//! is active belongs to the program.

use vstd::prelude::*;

use crate::ytdlp::opt_view;
use crate::text::{contains, lowercase, starts_with, str_chars, str_contains, str_eq, str_starts_with, to_lowercase};

verus! {

#[derive(Debug, Clone, Copy, PartialEq, Eq, Structural)]
pub enum DeviceKind {
    Speaker,
    Headphones,
    Earbuds,
    Unknown,
}

impl DeviceKind {
    pub open spec fn spec_label(self) -> Seq<char> {
        match self {
            DeviceKind::Speaker => "speaker"@,
            DeviceKind::Headphones => "headphones"@,
            DeviceKind::Earbuds => "earbuds"@,
            DeviceKind::Unknown => "audio"@,
        }
    }

    /// The device's face: seven glyphs whose sides hint at the device shape,
    /// padded with a space to eight characters.
    pub open spec fn spec_kaomoji(self) -> Seq<char> {
        match self {
            DeviceKind::Speaker => "<(˃ᴗ˂)> "@,
            DeviceKind::Headphones => "Ω(˃ᴗ˂)Ω "@,
            DeviceKind::Earbuds => "ɞ(˃ᴗ˂)ʚ "@,
            DeviceKind::Unknown => "?(˃ᴗ˂)? "@,
        }
    }

    pub fn label(self) -> (r: &'static str)
        ensures
            r@ == self.spec_label(),
    {
        match self {
            DeviceKind::Speaker => "speaker",
            DeviceKind::Headphones => "headphones",
            DeviceKind::Earbuds => "earbuds",
            DeviceKind::Unknown => "audio",
        }
    }

    /// An 8-character kaomoji whose side glyphs hint at the device shape.
    pub fn kaomoji(self) -> (r: &'static str)
        ensures
            r@ == self.spec_kaomoji(),
            r@.len() == 8,
    {
        proof {
            reveal_strlit("<(˃ᴗ˂)> ");
            reveal_strlit("Ω(˃ᴗ˂)Ω ");
            reveal_strlit("ɞ(˃ᴗ˂)ʚ ");
            reveal_strlit("?(˃ᴗ˂)? ");
        }
        match self {
            DeviceKind::Speaker => "<(˃ᴗ˂)> ",
            DeviceKind::Headphones => "Ω(˃ᴗ˂)Ω ",
            DeviceKind::Earbuds => "ɞ(˃ᴗ˂)ʚ ",
            DeviceKind::Unknown => "?(˃ᴗ˂)? ",
        }
    }
}

#[derive(Debug)]
pub struct OutputDevice {
    pub name: String,
    pub kind: DeviceKind,
    pub bluetooth: bool,
    /// Simplified transport label: "built-in", "bluetooth", "usb",
    /// "displayport", "hdmi", or "audio".
    pub transport: String,
}

/// The value of an [`OutputDevice`].
pub struct DeviceView {
    pub name: Seq<char>,
    pub kind: DeviceKind,
    pub bluetooth: bool,
    pub transport: Seq<char>,
}

impl View for OutputDevice {
    type V = DeviceView;

    open spec fn view(&self) -> DeviceView {
        DeviceView {
            name: self.name@,
            kind: self.kind,
            bluetooth: self.bluetooth,
            transport: self.transport@,
        }
    }
}

impl Clone for OutputDevice {
    fn clone(&self) -> (r: Self)
        ensures
            r@ == self@,
    {
        OutputDevice {
            name: self.name.clone(),
            kind: self.kind,
            bluetooth: self.bluetooth,
            transport: self.transport.clone(),
        }
    }
}

/// The short transport label for a CoreAudio transport identifier.
pub open spec fn transport_label(t: Seq<char>) -> Seq<char> {
    let p = "coreaudio_device_type_"@;
    if starts_with(t, p) {
        let s = t.skip(p.len() as int);
        if s == "builtin"@ {
            "built-in"@
        } else if s == "bluetooth"@ {
            "bluetooth"@
        } else if s == "displayport"@ {
            "displayport"@
        } else if s == "hdmi"@ {
            "hdmi"@
        } else if s == "usb"@ {
            "usb"@
        } else {
            "audio"@
        }
    } else {
        "audio"@
    }
}

pub fn simplify_transport(t: &str) -> (r: &'static str)
    ensures
        r@ == transport_label(t@),
        r@ == "built-in"@ || r@ == "bluetooth"@ || r@ == "usb"@ || r@ == "displayport"@ || r@
            == "hdmi"@ || r@ == "audio"@,
{
    let v = str_chars(t);
    let p = str_chars("coreaudio_device_type_");
    proof {
        reveal_strlit("coreaudio_device_type_");
    }
    if !crate::text::has_prefix(v.as_slice(), p.as_slice()) {
        return "audio";
    }
    let rest = crate::text::copy_range(v.as_slice(), p.len(), v.len());
    assert(rest@ =~= t@.skip("coreaudio_device_type_"@.len() as int));
    let s = crate::text::string_from_chars(rest.as_slice());
    let s = s.as_str();
    if str_eq(s, "builtin") {
        "built-in"
    } else if str_eq(s, "bluetooth") {
        "bluetooth"
    } else if str_eq(s, "displayport") {
        "displayport"
    } else if str_eq(s, "hdmi") {
        "hdmi"
    } else if str_eq(s, "usb") {
        "usb"
    } else {
        "audio"
    }
}

/// The kind of device a name and transport suggest: earbuds by name, then
/// headphone product lines, then speakers by name or hard-wired port, then
/// any other Bluetooth device as earbuds.
pub open spec fn device_kind(name: Seq<char>, transport: Seq<char>) -> DeviceKind {
    let n = lowercase(name);
    if contains(n, "airpods"@) || contains(n, "buds"@) || contains(n, "earbuds"@) {
        DeviceKind::Earbuds
    } else if contains(n, "headphone"@) || contains(n, "wh-"@) || contains(n, "qc"@) || contains(
        n,
        "bose"@,
    ) || contains(n, "xm"@) || contains(n, "studio"@) || contains(n, "beats"@) {
        DeviceKind::Headphones
    } else if contains(n, "speaker"@) || transport == "coreaudio_device_type_builtin"@ || transport
        == "coreaudio_device_type_displayport"@ || transport == "coreaudio_device_type_hdmi"@ {
        DeviceKind::Speaker
    } else if transport == "coreaudio_device_type_bluetooth"@ {
        DeviceKind::Earbuds
    } else {
        DeviceKind::Unknown
    }
}

pub fn classify(name: &str, transport: &str) -> (r: DeviceKind)
    ensures
        r == device_kind(name@, transport@),
{
    let lower = to_lowercase(name);
    let n = lower.as_str();
    if str_contains(n, "airpods") || str_contains(n, "buds") || str_contains(n, "earbuds") {
        return DeviceKind::Earbuds;
    }
    if str_contains(n, "headphone") || str_contains(n, "wh-") || str_contains(n, "qc")
        || str_contains(n, "bose") || str_contains(n, "xm") || str_contains(n, "studio")
        || str_contains(n, "beats") {
        return DeviceKind::Headphones;
    }
    if str_contains(n, "speaker") || str_eq(transport, "coreaudio_device_type_builtin") || str_eq(
        transport,
        "coreaudio_device_type_displayport",
    ) || str_eq(transport, "coreaudio_device_type_hdmi") {
        return DeviceKind::Speaker;
    }
    if str_eq(transport, "coreaudio_device_type_bluetooth") {
        return DeviceKind::Earbuds;
    }
    DeviceKind::Unknown
}

/// The device described by a system report's name and raw transport.
pub fn device_from(name: String, raw_transport: &str) -> (r: OutputDevice)
    ensures
        r.name@ == name@,
        r.transport@ == transport_label(raw_transport@),
        r.bluetooth == (raw_transport@ == "coreaudio_device_type_bluetooth"@),
        r.kind == device_kind(name@, raw_transport@),
{
    let transport = crate::text::str_to_string(simplify_transport(raw_transport));
    let bluetooth = str_eq(raw_transport, "coreaudio_device_type_bluetooth");
    let kind = classify(name.as_str(), raw_transport);
    OutputDevice { name, kind, bluetooth, transport }
}

/// One device row of the system's audio report: its `_name`, its
/// default-output flag and its raw transport, each where it is a string.
#[derive(Debug)]
pub struct AudioItem {
    pub name: Option<String>,
    pub default_output: Option<String>,
    pub transport: Option<String>,
}

pub struct AudioItemView {
    pub name: Option<Seq<char>>,
    pub default_output: Option<Seq<char>>,
    pub transport: Option<Seq<char>>,
}

impl View for AudioItem {
    type V = AudioItemView;

    open spec fn view(&self) -> AudioItemView {
        AudioItemView {
            name: opt_view(self.name),
            default_output: opt_view(self.default_output),
            transport: opt_view(self.transport),
        }
    }
}

/// The report's groups, each with its device rows when it lists any.
pub open spec fn groups_view(g: Seq<Option<Vec<AudioItem>>>) -> Seq<Option<Seq<AudioItemView>>> {
    g.map_values(
        |o: Option<Vec<AudioItem>>|
            match o {
                Some(v) => Some(v@.map_values(|x: AudioItem| x@)),
                None => None,
            },
    )
}

/// What `serde_json::from_str` makes of the system's audio report `text`,
/// read as groups of device rows (`None` where it is not JSON or has no
/// group list).
pub uninterp spec fn audio_report_of(text: Seq<char>) -> Option<Seq<Option<Seq<AudioItemView>>>>;

/// Calls `serde_json::from_str` into a JSON value and copies out the
/// `SPAudioDataType` array: for each group its `_items` array (`None` where
/// there is none), and for each item the strings under `_name`,
/// `coreaudio_default_audio_output_device` and `coreaudio_device_transport`.
/// Claims only that the result is a function of the text.
#[verifier::external_body]
fn audio_report(text: &str) -> (r: Option<Vec<Option<Vec<AudioItem>>>>)
    ensures
        match r {
            Some(g) => audio_report_of(text@) == Some(groups_view(g@)),
            None => audio_report_of(text@) is None,
        },
{
    let v: serde_json::Value = serde_json::from_str(text).ok()?;
    let st = |x: Option<&serde_json::Value>| Some(x?.as_str()?.to_string());
    let row = |d: &serde_json::Value| AudioItem {
        name: st(d.get("_name")),
        default_output: st(d.get("coreaudio_default_audio_output_device")),
        transport: st(d.get("coreaudio_device_transport")),
    };
    Some(v.get("SPAudioDataType")?.as_array()?.iter().map(|g| g.get("_items").and_then(|x| x.as_array()).map(|ds| ds.iter().map(row).collect())).collect())
}

/// Every device row of the report, group by group.
pub open spec fn all_items(g: Seq<Option<Seq<AudioItemView>>>) -> Seq<AudioItemView>
    decreases g.len(),
{
    if g.len() == 0 {
        Seq::empty()
    } else {
        all_items(g.drop_last()) + match g.last() {
            Some(items) => items,
            None => Seq::empty(),
        }
    }
}

/// The first row flagged as the default output.
pub open spec fn first_default(s: Seq<AudioItemView>) -> Option<AudioItemView>
    decreases s.len(),
{
    if s.len() == 0 {
        None
    } else if s[0].default_output == Some("spaudio_yes"@) {
        Some(s[0])
    } else {
        first_default(s.skip(1))
    }
}

/// The device a system report names as the default output: the first row
/// flagged so, if it has a name; its transport counts as empty when absent.
pub open spec fn default_device_of(g: Seq<Option<Seq<AudioItemView>>>) -> Option<DeviceView> {
    match first_default(all_items(g)) {
        Some(item) => match item.name {
            Some(n) => {
                let raw = match item.transport {
                    Some(t) => t,
                    None => Seq::empty(),
                };
                Some(
                    DeviceView {
                        name: n,
                        kind: device_kind(n, raw),
                        bluetooth: raw == "coreaudio_device_type_bluetooth"@,
                        transport: transport_label(raw),
                    },
                )
            },
            None => None,
        },
        None => None,
    }
}

pub open spec fn opt_device_view(d: Option<OutputDevice>) -> Option<DeviceView> {
    match d {
        Some(x) => Some(x@),
        None => None,
    }
}

fn flatten_items(g: &Vec<Option<Vec<AudioItem>>>) -> (r: Vec<&AudioItem>)
    ensures
        r@.map_values(|x: &AudioItem| x@) == all_items(groups_view(g@)),
{
    let mut out: Vec<&AudioItem> = Vec::new();
    let mut i: usize = 0;
    while i < g.len()
        invariant
            i <= g@.len(),
            out@.map_values(|x: &AudioItem| x@) == all_items(groups_view(g@).take(i as int)),
        decreases g@.len() - i,
    {
        assert(groups_view(g@).take(i + 1).drop_last() =~= groups_view(g@).take(i as int));
        assert(groups_view(g@).take(i + 1).last() == groups_view(g@)[i as int]);
        match &g[i] {
            Some(items) => {
                let ghost base = out@.map_values(|x: &AudioItem| x@);
                let mut j: usize = 0;
                while j < items.len()
                    invariant
                        j <= items@.len(),
                        out@.map_values(|x: &AudioItem| x@) == base + items@.take(j as int).map_values(|x: AudioItem| x@),
                    decreases items@.len() - j,
                {
                    let ghost before = out@;
                    out.push(&items[j]);
                    assert(out@ =~= before.push(&items@[j as int]));
                    assert(out@.map_values(|x: &AudioItem| x@) =~= before.map_values(|x: &AudioItem| x@).push(items@[j as int]@));
                    assert(items@.take(j + 1).map_values(|x: AudioItem| x@) =~= items@.take(j as int).map_values(|x: AudioItem| x@).push(items@[j as int]@));
                    assert(out@.map_values(|x: &AudioItem| x@) =~= base + items@.take(j + 1).map_values(|x: AudioItem| x@));
                    j += 1;
                }
                assert(items@.take(items@.len() as int) =~= items@);
            },
            None => {
                assert(all_items(groups_view(g@).take(i + 1)) =~= all_items(groups_view(g@).take(i as int)));
            },
        }
        i += 1;
    }
    assert(groups_view(g@).take(g@.len() as int) =~= groups_view(g@));
    out
}

/// The default output device of a parsed system report, as
/// `default_device_of` says.
pub fn default_device_in(g: &Vec<Option<Vec<AudioItem>>>) -> (r: Option<OutputDevice>)
    ensures
        opt_device_view(r) == default_device_of(groups_view(g@)),
{
    let items = flatten_items(g);
    let ghost all = items@.map_values(|x: &AudioItem| x@);
    let mut i: usize = 0;
    assert(all.skip(0) =~= all);
    while i < items.len()
        invariant
            i <= items@.len(),
            all == items@.map_values(|x: &AudioItem| x@),
            all == all_items(groups_view(g@)),
            first_default(all) == first_default(all.skip(i as int)),
        decreases items@.len() - i,
    {
        let d = items[i];
        assert(all.skip(i as int)[0] == d@);
        assert(all.skip(i as int).skip(1) =~= all.skip(i + 1));
        let flagged = match &d.default_output {
            Some(f) => str_eq(f.as_str(), "spaudio_yes"),
            None => false,
        };
        if flagged {
            assert(d@.default_output == Some("spaudio_yes"@));
            assert(first_default(all) == Some(d@));
            return match &d.name {
                Some(n) => {
                    let raw = match &d.transport {
                        Some(t) => t.as_str(),
                        None => "",
                    };
                    proof {
                        reveal_strlit("");
                        assert(raw@ == match d@.transport {
                            Some(t) => t,
                            None => Seq::<char>::empty(),
                        });
                    }
                    let name = n.clone();
                    assert(name@ == n@);
                    Some(device_from(name, raw))
                },
                None => None,
            };
        }
        assert(d@.default_output != Some("spaudio_yes"@));
        i += 1;
    }
    assert(all.skip(i as int) =~= Seq::<AudioItemView>::empty());
    None
}

/// The default output device named by the system's audio report (the
/// bytes a `system_profiler SPAudioDataType -json` run printed).
pub fn default_device(stdout: &[u8]) -> (r: Option<OutputDevice>)
    ensures
        opt_device_view(r) == match audio_report_of(crate::app::utf8_lossy(stdout@)) {
            Some(g) => default_device_of(g),
            None => None,
        },
{
    let text = crate::app::from_utf8_lossy(stdout);
    match audio_report(text.as_str()) {
        Some(g) => default_device_in(&g),
        None => None,
    }
}

/// Which of the eight volume blocks shows level `v`: `v / 100 * 7`
/// rounded half away from zero, capped at the last block. (For whole
/// levels the only exact halves are 50, 150 and 250, where the float
/// product is exact, so integer rounding gives the same block.)
pub open spec fn volume_block_index(v: u8) -> int {
    let idx = (7 * v + 50) / 100;
    if idx > 7 {
        7
    } else {
        idx
    }
}

pub open spec fn volume_blocks() -> Seq<Seq<char>> {
    seq!["▁"@, "▂"@, "▃"@, "▄"@, "▅"@, "▆"@, "▇"@, "█"@]
}

/// Eight-step block icon for a volume level.
pub fn volume_block(v: u8) -> (r: &'static str)
    ensures
        r@ == volume_blocks()[volume_block_index(v)],
{
    let idx: u32 = (7 * (v as u32) + 50) / 100;
    let idx = if idx > 7 {
        7
    } else {
        idx
    };
    match idx {
        0 => "▁",
        1 => "▂",
        2 => "▃",
        3 => "▄",
        4 => "▅",
        5 => "▆",
        6 => "▇",
        _ => "█",
    }
}

} // verus!
