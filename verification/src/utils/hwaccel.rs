//! Choice of an H.264 encoder and its FFmpeg arguments.
use vstd::prelude::*;

use crate::utils::text::{
    dec, lines, lines_spec, push_str, str_eq, trim, trim_spec, u64_to_dec, words, words_spec,
    find_first, lemma_find_first,
};

verus! {

broadcast use vstd::string::group_string_axioms;

/// The H.264 encoder families that FFmpeg offers.
#[derive(Debug, Clone, Copy, PartialEq, Eq, Structural)]
pub enum VideoEncoderKind {
    Software,
    VideoToolbox,
    Nvenc,
    Qsv,
    Amf,
}

/// The encoder chosen for H.264 output, with the decode acceleration method
/// that goes with it.
#[derive(Debug, Clone, PartialEq, Eq)]
pub struct HwAccelCapabilities {
    pub encoder: VideoEncoderKind,
    pub encoder_name: String,
    pub hwaccel: Option<String>,
}

/// The mathematical value of a capability: encoder kind, encoder name and
/// acceleration method.
pub type CapsModel = (VideoEncoderKind, Seq<char>, Option<Seq<char>>);

impl View for HwAccelCapabilities {
    type V = CapsModel;

    open spec fn view(&self) -> CapsModel {
        (self.encoder, self.encoder_name@, self.hwaccel.deep_view())
    }
}

/// The software fallback: `libx264` without acceleration.
pub open spec fn software_caps() -> CapsModel {
    (VideoEncoderKind::Software, "libx264"@, None)
}

impl HwAccelCapabilities {
    /// The software encoder `libx264`, without decode acceleration.
    pub fn software() -> (caps: Self)
        ensures
            caps@ == software_caps(),
    {
        HwAccelCapabilities {
            encoder: VideoEncoderKind::Software,
            encoder_name: "libx264".to_string(),
            hwaccel: None,
        }
    }

    /// Whether the chosen encoder is a hardware one.
    pub fn uses_hardware(&self) -> (r: bool)
        ensures
            r == (self.encoder != VideoEncoderKind::Software),
    {
        match self.encoder {
            VideoEncoderKind::Software => false,
            _ => true,
        }
    }
}

/// What the encoder arguments depend on besides the encoder.
pub struct VideoEncodeSettings {
    pub crf: u8,
    pub x264_preset: Option<String>,
    pub video_bitrate: Option<String>,
    pub maxrate: Option<String>,
    pub bufsize: Option<String>,
}

/// A set of names (encoders or acceleration methods); no name is held twice.
pub struct NameSet {
    names: Vec<String>,
}

impl View for NameSet {
    type V = Set<Seq<char>>;

    closed spec fn view(&self) -> Set<Seq<char>> {
        self.names.deep_view().to_set()
    }
}

impl NameSet {
    #[verifier::type_invariant]
    spec fn wf(self) -> bool {
        self.names.deep_view().no_duplicates()
    }

    /// The empty set.
    pub fn new() -> (s: Self)
        ensures
            s@ == Set::<Seq<char>>::empty(),
    {
        let s = NameSet { names: Vec::new() };
        assert(s.names.deep_view() =~= Seq::<Seq<char>>::empty());
        assert(s@ =~= Set::<Seq<char>>::empty());
        s
    }

    /// Whether `name` is in the set.
    pub fn contains(&self, name: &str) -> (r: bool)
        ensures
            r == self@.contains(name@),
    {
        let ghost dv = self.names.deep_view();
        let mut i: usize = 0;
        while i < self.names.len()
            invariant
                i <= self.names.len(),
                dv == self.names.deep_view(),
                forall|j: int| 0 <= j < i ==> dv[j] != name@,
            decreases self.names.len() - i,
        {
            if str_eq(self.names[i].as_str(), name) {
                assert(dv[i as int] == name@);
                return true;
            }
            i = i + 1;
        }
        assert(!dv.contains(name@));
        false
    }

    /// Adds `name` to the set.
    pub fn insert(&mut self, name: String)
        ensures
            final(self)@ == old(self)@.insert(name@),
    {
        proof {
            use_type_invariant(&*self);
        }
        if !self.contains(name.as_str()) {
            let ghost before = self.names.deep_view();
            let ghost nv = name@;
            let mut names: Vec<String> = Vec::new();
            std::mem::swap(&mut names, &mut self.names);
            names.push(name);
            assert(names.deep_view() =~= before.push(nv));
            proof {
                assert forall|i: int, j: int|
                    0 <= i < names.deep_view().len() && 0 <= j < names.deep_view().len()
                        && i != j implies names.deep_view()[i]
                    != names.deep_view()[j] by {
                    if i == before.len() as int {
                        assert(before.contains(before[j]));
                    } else if j == before.len() as int {
                        assert(before.contains(before[i]));
                    }
                }
                lemma_to_set_push(before, nv);
            }
            self.names = names;
            assert(self@ =~= old(self)@.insert(nv));
        } else {
            assert(old(self)@.insert(name@) =~= old(self)@);
        }
    }

    /// The set of the given names.
    pub fn from_names(names: Vec<String>) -> (s: Self)
        ensures
            s@ == names.deep_view().to_set(),
    {
        let mut s = NameSet::new();
        let ghost dv = names.deep_view();
        let mut i: usize = 0;
        while i < names.len()
            invariant
                i <= names.len(),
                dv == names.deep_view(),
                s@ == dv.take(i as int).to_set(),
            decreases names.len() - i,
        {
            s.insert(names[i].clone());
            proof {
                assert(dv.take(i + 1) =~= dv.take(i as int).push(dv[i as int]));
                lemma_to_set_push(dv.take(i as int), dv[i as int]);
            }
            i = i + 1;
        }
        assert(dv.take(names.len() as int) =~= dv);
        s
    }
}

proof fn lemma_to_set_push<A>(s: Seq<A>, x: A)
    ensures
        s.push(x).to_set() == s.to_set().insert(x),
{
    assert forall|a: A| #[trigger] s.push(x).to_set().contains(a) == s.to_set().insert(x).contains(a) by {
        if s.contains(a) {
            let i = choose|i: int| 0 <= i < s.len() && s[i] == a;
            assert(s.push(x)[i] == a);
        }
        if a == x {
            assert(s.push(x)[s.len() as int] == x);
        }
        if s.push(x).contains(a) {
            let i = choose|i: int| 0 <= i < s.len() + 1 && s.push(x)[i] == a;
            if i < s.len() {
                assert(s[i] == a);
            }
        }
    }
    assert(s.push(x).to_set() =~= s.to_set().insert(x));
}

/// The name of the encoder that a line of `ffmpeg -encoders` lists, if it
/// lists a video encoder: the second word, where the first (the flags)
/// starts with `V`.
pub open spec fn encoder_line_name(line: Seq<char>) -> Option<Seq<char>> {
    let words = words_spec(line);
    if words.len() >= 2 && words[0].len() > 0 && words[0][0] == 'V' {
        Some(words[1])
    } else {
        None
    }
}

/// The video encoders that the given lines list.
pub open spec fn encoder_names_of_lines(lines: Seq<Seq<char>>) -> Set<Seq<char>>
    decreases lines.len(),
{
    if lines.len() == 0 {
        Set::empty()
    } else {
        let rest = encoder_names_of_lines(lines.drop_last());
        match encoder_line_name(lines.last()) {
            Some(name) => rest.insert(name),
            None => rest,
        }
    }
}

/// The video encoders that an `ffmpeg -encoders` listing names.
pub open spec fn encoder_names_spec(output: Seq<char>) -> Set<Seq<char>> {
    encoder_names_of_lines(lines_spec(output))
}

/// The non-blank trimmed lines among `lines`.
pub open spec fn trimmed_names_of_lines(lines: Seq<Seq<char>>) -> Set<Seq<char>>
    decreases lines.len(),
{
    if lines.len() == 0 {
        Set::empty()
    } else {
        let rest = trimmed_names_of_lines(lines.drop_last());
        let t = trim_spec(lines.last());
        if t.len() > 0 {
            rest.insert(t)
        } else {
            rest
        }
    }
}

/// The methods that an `ffmpeg -hwaccels` listing names: every line after
/// the heading, trimmed, that is not blank.
pub open spec fn hwaccel_names_spec(output: Seq<char>) -> Set<Seq<char>> {
    let lines = lines_spec(output);
    if lines.len() == 0 {
        Set::empty()
    } else {
        trimmed_names_of_lines(lines.skip(1))
    }
}

/// The video encoders named by the output of `ffmpeg -encoders`.
pub fn parse_encoder_names(output: &str) -> (names: NameSet)
    ensures
        names@ == encoder_names_spec(output@),
{
    let lines = lines(output);
    let ghost lv = lines.deep_view();
    let mut names = NameSet::new();
    let mut i: usize = 0;
    while i < lines.len()
        invariant
            i <= lines.len(),
            lv == lines.deep_view(),
            names@ == encoder_names_of_lines(lv.take(i as int)),
        decreases lines.len() - i,
    {
        assert(lv.take(i + 1).drop_last() =~= lv.take(i as int));
        assert(lv.take(i + 1).last() == lines[i as int]@);
        let parts = words(lines[i].as_str());
        if parts.len() >= 2 {
            let flags = parts[0].as_str();
            if flags.unicode_len() > 0 && flags.get_char(0) == 'V' {
                names.insert(parts[1].clone());
            }
        }
        i = i + 1;
    }
    assert(lv.take(lines.len() as int) =~= lv);
    names
}

/// The acceleration methods named by the output of `ffmpeg -hwaccels`.
pub fn parse_hwaccel_names(output: &str) -> (names: NameSet)
    ensures
        names@ == hwaccel_names_spec(output@),
{
    let lines = lines(output);
    let mut names = NameSet::new();
    if lines.len() == 0 {
        return names;
    }
    let ghost lv = lines.deep_view().skip(1);
    let mut i: usize = 1;
    while i < lines.len()
        invariant
            1 <= i <= lines.len(),
            lv == lines.deep_view().skip(1),
            names@ == trimmed_names_of_lines(lv.take(i - 1)),
        decreases lines.len() - i,
    {
        assert(lv.take(i as int).drop_last() =~= lv.take(i - 1));
        assert(lv.take(i as int).last() == lines[i as int]@);
        let t = trim(lines[i].as_str());
        if t.as_str().unicode_len() > 0 {
            names.insert(t);
        }
        i = i + 1;
    }
    assert(lv.take(lines.len() - 1) =~= lv);
    names
}

/// The encoder table, in order of preference: encoder name, kind, and the
/// acceleration method to use with it when FFmpeg offers it.
pub open spec fn encoder_choice(i: int) -> (Seq<char>, VideoEncoderKind, Option<Seq<char>>) {
    if i == 0 {
        ("h264_videotoolbox"@, VideoEncoderKind::VideoToolbox, Some("videotoolbox"@))
    } else if i == 1 {
        ("h264_nvenc"@, VideoEncoderKind::Nvenc, Some("cuda"@))
    } else if i == 2 {
        ("h264_qsv"@, VideoEncoderKind::Qsv, Some("qsv"@))
    } else {
        ("h264_amf"@, VideoEncoderKind::Amf, None)
    }
}

/// The number of entries of the encoder table.
pub open spec fn encoder_choice_count() -> int {
    4
}

/// The acceleration candidates tried, in order, when the preferred one of an
/// encoder is not offered.
pub open spec fn fallback_candidates(kind: VideoEncoderKind) -> Seq<Seq<char>> {
    match kind {
        VideoEncoderKind::Nvenc => seq!["cuda"@, "nvdec"@, "auto"@],
        VideoEncoderKind::Amf => seq!["d3d11va"@, "dxva2"@, "auto"@],
        _ => seq![],
    }
}

/// The first of `candidates` that `hwaccels` holds.
pub open spec fn first_offered(candidates: Seq<Seq<char>>, hwaccels: Set<Seq<char>>) -> Option<
    Seq<char>,
>
    decreases candidates.len(),
{
    if candidates.len() == 0 {
        None
    } else if hwaccels.contains(candidates[0]) {
        Some(candidates[0])
    } else {
        first_offered(candidates.drop_first(), hwaccels)
    }
}

/// The fallback acceleration method of an encoder kind.
pub open spec fn fallback_hwaccel_spec(kind: VideoEncoderKind, hwaccels: Set<Seq<char>>) -> Option<
    Seq<char>,
> {
    first_offered(fallback_candidates(kind), hwaccels)
}

/// The acceleration method for the table entry `i`: its preferred method if
/// offered, else the fallback of its kind.
pub open spec fn choice_hwaccel(i: int, hwaccels: Set<Seq<char>>) -> Option<Seq<char>> {
    let (_, kind, preferred) = encoder_choice(i);
    match preferred {
        Some(p) => if hwaccels.contains(p) {
            Some(p)
        } else {
            fallback_hwaccel_spec(kind, hwaccels)
        },
        None => fallback_hwaccel_spec(kind, hwaccels),
    }
}

/// The capability chosen from table entry `i` on: the first entry whose
/// encoder is offered, or the software encoder.
pub open spec fn pick_from(i: int, encoders: Set<Seq<char>>, hwaccels: Set<Seq<char>>) -> CapsModel
    decreases encoder_choice_count() - i,
{
    if i < 0 || i >= encoder_choice_count() {
        software_caps()
    } else {
        let (name, kind, _) = encoder_choice(i);
        if encoders.contains(name) {
            (kind, name, choice_hwaccel(i, hwaccels))
        } else {
            pick_from(i + 1, encoders, hwaccels)
        }
    }
}

/// The capability chosen from what FFmpeg offers.
pub open spec fn pick_encoder_spec(encoders: Set<Seq<char>>, hwaccels: Set<Seq<char>>) -> CapsModel {
    pick_from(0, encoders, hwaccels)
}

fn encoder_choice_exec(i: usize) -> (r: (&'static str, VideoEncoderKind, Option<&'static str>))
    requires
        i < 4,
    ensures
        r.0@ == encoder_choice(i as int).0,
        r.1 == encoder_choice(i as int).1,
        r.2.deep_view() == encoder_choice(i as int).2,
{
    if i == 0 {
        ("h264_videotoolbox", VideoEncoderKind::VideoToolbox, Some("videotoolbox"))
    } else if i == 1 {
        ("h264_nvenc", VideoEncoderKind::Nvenc, Some("cuda"))
    } else if i == 2 {
        ("h264_qsv", VideoEncoderKind::Qsv, Some("qsv"))
    } else {
        ("h264_amf", VideoEncoderKind::Amf, None)
    }
}

/// The fallback acceleration method of an encoder kind, if `hwaccels` offers one.
pub fn fallback_hwaccel(kind: VideoEncoderKind, hwaccels: &NameSet) -> (r: Option<String>)
    ensures
        r.deep_view() == fallback_hwaccel_spec(kind, hwaccels@),
{
    let candidates: [&'static str; 3] = match kind {
        VideoEncoderKind::Nvenc => ["cuda", "nvdec", "auto"],
        VideoEncoderKind::Amf => ["d3d11va", "dxva2", "auto"],
        _ => {
            return None;
        },
    };
    let ghost cands = fallback_candidates(kind);
    assert(cands.len() == 3);
    assert(candidates@[0]@ == cands[0] && candidates@[1]@ == cands[1] && candidates@[2]@
        == cands[2]);
    let mut i: usize = 0;
    assert(cands.skip(0) =~= cands);
    while i < 3
        invariant
            i <= 3,
            cands == fallback_candidates(kind),
            cands.len() == 3,
            forall|j: int| 0 <= j < 3 ==> (#[trigger] candidates@[j])@ == cands[j],
            first_offered(cands, hwaccels@) == first_offered(cands.skip(i as int), hwaccels@),
        decreases 3 - i,
    {
        assert(cands.skip(i as int)[0] == cands[i as int]);
        assert(cands.skip(i as int).drop_first() =~= cands.skip(i + 1));
        if hwaccels.contains(candidates[i]) {
            return Some(candidates[i].to_string());
        }
        i = i + 1;
    }
    assert(cands.skip(3) =~= Seq::<Seq<char>>::empty());
    None
}

/// Picks the first encoder of the table that FFmpeg offers, with its
/// acceleration method; the software encoder when none is offered.
pub fn pick_encoder(encoders: &NameSet, hwaccels: &NameSet) -> (caps: HwAccelCapabilities)
    ensures
        caps@ == pick_encoder_spec(encoders@, hwaccels@),
{
    let mut i: usize = 0;
    while i < 4
        invariant
            i <= 4,
            pick_encoder_spec(encoders@, hwaccels@) == pick_from(i as int, encoders@, hwaccels@),
        decreases 4 - i,
    {
        let (name, kind, preferred) = encoder_choice_exec(i);
        if encoders.contains(name) {
            let hwaccel = match preferred {
                Some(p) => if hwaccels.contains(p) {
                    Some(p.to_string())
                } else {
                    fallback_hwaccel(kind, hwaccels)
                },
                None => fallback_hwaccel(kind, hwaccels),
            };
            return HwAccelCapabilities { encoder: kind, encoder_name: name.to_string(), hwaccel };
        }
        i = i + 1;
    }
    HwAccelCapabilities::software()
}

/// The names that a listing holds; a listing that could not be had counts as empty.
pub open spec fn listed_encoders(listing: Option<Seq<char>>) -> Set<Seq<char>> {
    match listing {
        Some(out) => encoder_names_spec(out),
        None => Set::empty(),
    }
}

/// The methods that a listing holds; a listing that could not be had counts as empty.
pub open spec fn listed_hwaccels(listing: Option<Seq<char>>) -> Set<Seq<char>> {
    match listing {
        Some(out) => hwaccel_names_spec(out),
        None => Set::empty(),
    }
}

/// The capability to use: software when acceleration is disabled, else the
/// one picked from the listings of `ffmpeg -encoders` and `ffmpeg -hwaccels`
/// (`None` where FFmpeg could not list them).
pub fn detect_hw_capabilities(
    enabled: bool,
    encoders_listing: Option<&str>,
    hwaccels_listing: Option<&str>,
) -> (caps: HwAccelCapabilities)
    ensures
        caps@ == (if !enabled {
            software_caps()
        } else {
            pick_encoder_spec(
                listed_encoders(encoders_listing.deep_view()),
                listed_hwaccels(hwaccels_listing.deep_view()),
            )
        }),
{
    if !enabled {
        return HwAccelCapabilities::software();
    }
    let encoders = match encoders_listing {
        Some(out) => parse_encoder_names(out),
        None => NameSet::new(),
    };
    let hwaccels = match hwaccels_listing {
        Some(out) => parse_hwaccel_names(out),
        None => NameSet::new(),
    };
    pick_encoder(&encoders, &hwaccels)
}

/// The arguments with `-hwaccel <method>` placed before the first `-i`;
/// unchanged without a method or without an `-i`.
pub open spec fn with_hwaccel(args: Seq<Seq<char>>, hwaccel: Option<Seq<char>>) -> Seq<Seq<char>> {
    match hwaccel {
        None => args,
        Some(h) => match find_first(args, "-i"@) {
            None => args,
            Some(k) => args.take(k) + seq!["-hwaccel"@, h] + args.skip(k),
        },
    }
}

/// Places `-hwaccel <method>` before the first `-i` of `args`.
pub fn insert_hwaccel_before_input(args: &mut Vec<String>, caps: &HwAccelCapabilities)
    ensures
        final(args).deep_view() == with_hwaccel(old(args).deep_view(), caps.hwaccel.deep_view()),
{
    let hwaccel = match &caps.hwaccel {
        Some(h) => h,
        None => {
            return ;
        },
    };
    let ghost dv = args.deep_view();
    proof {
        lemma_find_first(dv, "-i"@);
    }
    let mut i: usize = 0;
    while i < args.len()
        invariant
            i <= args.len(),
            dv == args.deep_view(),
            forall|j: int| 0 <= j < i ==> dv[j] != "-i"@,
        ensures
            i <= args.len(),
            forall|j: int| 0 <= j < i ==> dv[j] != "-i"@,
            i < args.len() ==> dv[i as int] == "-i"@,
        decreases args.len() - i,
    {
        if str_eq(args[i].as_str(), "-i") {
            break;
        }
        i = i + 1;
    }
    if i == args.len() {
        assert(find_first(dv, "-i"@) is None);
        return ;
    }
    assert(find_first(dv, "-i"@) == Some(i as int));
    args.insert(i, "-hwaccel".to_string());
    args.insert(i + 1, hwaccel.clone());
    assert(args.deep_view() =~= dv.take(i as int) + seq!["-hwaccel"@, hwaccel@] + dv.skip(
        i as int,
    ));
}

/// The VideoToolbox quality for a CRF value: `crf + 42` clamped to `1..=100`
/// (`q:v` runs from 1 to 100, higher meaning lower quality).
pub open spec fn videotoolbox_q_spec(crf: int) -> int {
    let v = crf + 42;
    if v < 1 {
        1
    } else if v > 100 {
        100
    } else {
        v
    }
}

/// The VideoToolbox quality for a CRF value.
pub fn crf_to_videotoolbox_q(crf: u8) -> (q: u8)
    ensures
        q == videotoolbox_q_spec(crf as int),
{
    let v: u16 = crf as u16 + 42;
    if v > 100 {
        100
    } else {
        v as u8
    }
}

/// Whether an x264 preset is one of the fast ones.
pub open spec fn is_fast_preset_spec(p: Seq<char>) -> bool {
    p == "ultrafast"@ || p == "superfast"@ || p == "veryfast"@ || p == "faster"@ || p == "fast"@
}

/// Whether an x264 preset is one of the slow ones.
pub open spec fn is_slow_preset_spec(p: Seq<char>) -> bool {
    p == "slow"@ || p == "slower"@ || p == "veryslow"@
}

/// Whether `preset` is one of the fast x264 presets.
pub fn is_fast_preset(preset: &str) -> (r: bool)
    ensures
        r == is_fast_preset_spec(preset@),
{
    str_eq(preset, "ultrafast") || str_eq(preset, "superfast") || str_eq(preset, "veryfast")
        || str_eq(preset, "faster") || str_eq(preset, "fast")
}

fn is_slow_preset(preset: &str) -> (r: bool)
    ensures
        r == is_slow_preset_spec(preset@),
{
    str_eq(preset, "slow") || str_eq(preset, "slower") || str_eq(preset, "veryslow")
}

/// The NVENC preset for an x264 preset.
pub open spec fn nvenc_preset_spec(preset: Option<Seq<char>>) -> Option<Seq<char>> {
    match preset {
        None => None,
        Some(p) => Some(
            if p == "ultrafast"@ || p == "superfast"@ || p == "veryfast"@ {
                "p1"@
            } else if p == "faster"@ || p == "fast"@ {
                "p3"@
            } else if p == "medium"@ {
                "p5"@
            } else if is_slow_preset_spec(p) {
                "p7"@
            } else {
                "p5"@
            },
        ),
    }
}

/// The QSV preset for an x264 preset.
pub open spec fn qsv_preset_spec(preset: Option<Seq<char>>) -> Option<Seq<char>> {
    match preset {
        None => None,
        Some(p) => Some(
            if is_fast_preset_spec(p) {
                "veryfast"@
            } else if is_slow_preset_spec(p) {
                "veryslow"@
            } else {
                "medium"@
            },
        ),
    }
}

/// The AMF quality for an x264 preset.
pub open spec fn amf_quality_spec(preset: Option<Seq<char>>) -> Option<Seq<char>> {
    match preset {
        None => None,
        Some(p) => Some(
            if is_fast_preset_spec(p) {
                "speed"@
            } else if is_slow_preset_spec(p) {
                "quality"@
            } else {
                "balanced"@
            },
        ),
    }
}

/// The NVENC preset for an x264 preset.
pub fn map_nvenc_preset(preset: Option<&str>) -> (r: Option<&'static str>)
    ensures
        r.deep_view() == nvenc_preset_spec(preset.deep_view()),
{
    let p = match preset {
        Some(p) => p,
        None => {
            return None;
        },
    };
    Some(
        if str_eq(p, "ultrafast") || str_eq(p, "superfast") || str_eq(p, "veryfast") {
            "p1"
        } else if str_eq(p, "faster") || str_eq(p, "fast") {
            "p3"
        } else if str_eq(p, "medium") {
            "p5"
        } else if is_slow_preset(p) {
            "p7"
        } else {
            "p5"
        },
    )
}

/// The QSV preset for an x264 preset.
pub fn map_qsv_preset(preset: Option<&str>) -> (r: Option<&'static str>)
    ensures
        r.deep_view() == qsv_preset_spec(preset.deep_view()),
{
    let p = match preset {
        Some(p) => p,
        None => {
            return None;
        },
    };
    Some(
        if is_fast_preset(p) {
            "veryfast"
        } else if is_slow_preset(p) {
            "veryslow"
        } else {
            "medium"
        },
    )
}

/// The AMF quality for an x264 preset.
pub fn map_amf_quality(preset: Option<&str>) -> (r: Option<&'static str>)
    ensures
        r.deep_view() == amf_quality_spec(preset.deep_view()),
{
    let p = match preset {
        Some(p) => p,
        None => {
            return None;
        },
    };
    Some(
        if is_fast_preset(p) {
            "speed"
        } else if is_slow_preset(p) {
            "quality"
        } else {
            "balanced"
        },
    )
}

/// `[flag, value]` when the value is present, else nothing.
pub open spec fn opt_pair(flag: Seq<char>, value: Option<Seq<char>>) -> Seq<Seq<char>> {
    match value {
        Some(v) => seq![flag, v],
        None => seq![],
    }
}

/// The rate-control arguments when a target bitrate is given.
pub open spec fn bitrate_args_spec(
    kind: VideoEncoderKind,
    video_bitrate: Seq<char>,
    maxrate: Option<Seq<char>>,
    bufsize: Option<Seq<char>>,
) -> Seq<Seq<char>> {
    seq!["-b:v"@, video_bitrate] + opt_pair("-maxrate"@, maxrate) + opt_pair("-bufsize"@, bufsize)
        + (if kind == VideoEncoderKind::VideoToolbox {
        seq!["-allow_sw"@, "1"@]
    } else {
        seq![]
    })
}

/// The constant-quality arguments of each encoder kind.
pub open spec fn quality_args_spec(kind: VideoEncoderKind, crf: u8, preset: Option<Seq<char>>) -> Seq<
    Seq<char>,
> {
    let c = dec(crf as nat);
    match kind {
        VideoEncoderKind::Software => opt_pair("-preset"@, preset) + seq!["-crf"@, c],
        VideoEncoderKind::VideoToolbox => seq![
            "-q:v"@,
            dec(videotoolbox_q_spec(crf as int) as nat),
        ] + (if preset matches Some(p) && is_fast_preset_spec(p) {
            seq!["-prio_speed"@, "1"@]
        } else {
            seq![]
        }),
        VideoEncoderKind::Nvenc => seq!["-rc:v"@, "vbr"@, "-cq:v"@, c] + opt_pair(
            "-preset"@,
            nvenc_preset_spec(preset),
        ),
        VideoEncoderKind::Qsv => seq!["-global_quality"@, c] + opt_pair(
            "-preset"@,
            qsv_preset_spec(preset),
        ),
        VideoEncoderKind::Amf => seq!["-rc"@, "cqp"@, "-qp_i"@, c, "-qp_p"@, c] + opt_pair(
            "-quality"@,
            amf_quality_spec(preset),
        ),
    }
}

/// The H.264 encoder arguments for a capability and settings: the encoder,
/// then bitrate control when a target bitrate is set, else the encoder's
/// constant-quality arguments.
pub open spec fn h264_encode_args_spec(
    caps: CapsModel,
    crf: u8,
    preset: Option<Seq<char>>,
    video_bitrate: Option<Seq<char>>,
    maxrate: Option<Seq<char>>,
    bufsize: Option<Seq<char>>,
) -> Seq<Seq<char>> {
    seq!["-c:v"@, caps.1] + match video_bitrate {
        Some(b) => bitrate_args_spec(caps.0, b, maxrate, bufsize),
        None => quality_args_spec(caps.0, crf, preset),
    }
}

fn push_opt_pair(args: &mut Vec<String>, flag: &str, value: &Option<String>)
    ensures
        final(args).deep_view() == old(args).deep_view() + opt_pair(flag@, value.deep_view()),
{
    match value {
        Some(v) => {
            push_str(args, flag);
            push_str(args, v.as_str());
            assert(args.deep_view() =~= old(args).deep_view() + opt_pair(flag@, value.deep_view()));
        },
        None => {
            assert(args.deep_view() =~= old(args).deep_view() + opt_pair(flag@, value.deep_view()));
        },
    }
}

fn push_opt_static_pair(args: &mut Vec<String>, flag: &str, value: Option<&'static str>)
    ensures
        final(args).deep_view() == old(args).deep_view() + opt_pair(flag@, value.deep_view()),
{
    match value {
        Some(v) => {
            push_str(args, flag);
            push_str(args, v);
            assert(args.deep_view() =~= old(args).deep_view() + opt_pair(flag@, value.deep_view()));
        },
        None => {
            assert(args.deep_view() =~= old(args).deep_view() + opt_pair(flag@, value.deep_view()));
        },
    }
}

fn append_bitrate_args(
    args: &mut Vec<String>,
    caps: &HwAccelCapabilities,
    video_bitrate: &str,
    settings: &VideoEncodeSettings,
)
    ensures
        final(args).deep_view() == old(args).deep_view() + bitrate_args_spec(
            caps.encoder,
            video_bitrate@,
            settings.maxrate.deep_view(),
            settings.bufsize.deep_view(),
        ),
{
    push_str(args, "-b:v");
    push_str(args, video_bitrate);
    push_opt_pair(args, "-maxrate", &settings.maxrate);
    push_opt_pair(args, "-bufsize", &settings.bufsize);
    if caps.encoder == VideoEncoderKind::VideoToolbox {
        push_str(args, "-allow_sw");
        push_str(args, "1");
    }
    assert(args.deep_view() =~= old(args).deep_view() + bitrate_args_spec(
        caps.encoder,
        video_bitrate@,
        settings.maxrate.deep_view(),
        settings.bufsize.deep_view(),
    ));
}

fn option_as_str(o: &Option<String>) -> (r: Option<&str>)
    ensures
        r.deep_view() == o.deep_view(),
{
    match o {
        Some(s) => Some(s.as_str()),
        None => None,
    }
}

/// Appends the H.264 encoder arguments for `caps` and `settings` to `args`.
pub fn append_h264_encode_args(
    args: &mut Vec<String>,
    caps: &HwAccelCapabilities,
    settings: &VideoEncodeSettings,
)
    ensures
        final(args).deep_view() == old(args).deep_view() + h264_encode_args_spec(
            caps@,
            settings.crf,
            settings.x264_preset.deep_view(),
            settings.video_bitrate.deep_view(),
            settings.maxrate.deep_view(),
            settings.bufsize.deep_view(),
        ),
{
    push_str(args, "-c:v");
    push_str(args, caps.encoder_name.as_str());
    let ghost head = args.deep_view();
    assert(head =~= old(args).deep_view() + seq!["-c:v"@, caps.encoder_name@]);
    if let Some(video_bitrate) = &settings.video_bitrate {
        append_bitrate_args(args, caps, video_bitrate.as_str(), settings);
        assert(args.deep_view() =~= old(args).deep_view() + h264_encode_args_spec(
            caps@,
            settings.crf,
            settings.x264_preset.deep_view(),
            settings.video_bitrate.deep_view(),
            settings.maxrate.deep_view(),
            settings.bufsize.deep_view(),
        ));
        return ;
    }
    let preset = option_as_str(&settings.x264_preset);
    let crf = u64_to_dec(settings.crf as u64);
    match caps.encoder {
        VideoEncoderKind::Software => {
            push_opt_pair(args, "-preset", &settings.x264_preset);
            push_str(args, "-crf");
            push_str(args, crf.as_str());
        },
        VideoEncoderKind::VideoToolbox => {
            push_str(args, "-q:v");
            let q = u64_to_dec(crf_to_videotoolbox_q(settings.crf) as u64);
            push_str(args, q.as_str());
            let fast = match preset {
                Some(p) => is_fast_preset(p),
                None => false,
            };
            if fast {
                push_str(args, "-prio_speed");
                push_str(args, "1");
            }
        },
        VideoEncoderKind::Nvenc => {
            push_str(args, "-rc:v");
            push_str(args, "vbr");
            push_str(args, "-cq:v");
            push_str(args, crf.as_str());
            push_opt_static_pair(args, "-preset", map_nvenc_preset(preset));
        },
        VideoEncoderKind::Qsv => {
            push_str(args, "-global_quality");
            push_str(args, crf.as_str());
            push_opt_static_pair(args, "-preset", map_qsv_preset(preset));
        },
        VideoEncoderKind::Amf => {
            push_str(args, "-rc");
            push_str(args, "cqp");
            push_str(args, "-qp_i");
            push_str(args, crf.as_str());
            push_str(args, "-qp_p");
            push_str(args, crf.as_str());
            push_opt_static_pair(args, "-quality", map_amf_quality(preset));
        },
    }
    assert(args.deep_view() =~= old(args).deep_view() + h264_encode_args_spec(
        caps@,
        settings.crf,
        settings.x264_preset.deep_view(),
        settings.video_bitrate.deep_view(),
        settings.maxrate.deep_view(),
        settings.bufsize.deep_view(),
    ));
}

/// The H.264 arguments of a constant-quality re-encode as `to-mp4` and `cut`
/// write them: `libx264` with `-crf` before `-preset`, or a hardware
/// encoder with its own constant-quality arguments.
pub open spec fn crf_encode_args_spec(caps: CapsModel, crf: u8, preset: Seq<char>) -> Seq<Seq<char>> {
    match caps.0 {
        VideoEncoderKind::Software => seq![
            "-c:v"@,
            "libx264"@,
            "-crf"@,
            dec(crf as nat),
            "-preset"@,
            preset,
        ],
        _ => h264_encode_args_spec(caps, crf, Some(preset), None, None, None),
    }
}

/// Appends the H.264 arguments of a constant-quality re-encode at `crf` and
/// x264 preset `preset` to `args`.
pub fn append_crf_encode_args(
    args: &mut Vec<String>,
    caps: &HwAccelCapabilities,
    crf: u8,
    preset: &str,
)
    ensures
        final(args).deep_view() == old(args).deep_view() + crf_encode_args_spec(caps@, crf, preset@),
{
    match caps.encoder {
        VideoEncoderKind::Software => {
            push_str(args, "-c:v");
            push_str(args, "libx264");
            push_str(args, "-crf");
            push_str(args, u64_to_dec(crf as u64).as_str());
            push_str(args, "-preset");
            push_str(args, preset);
            assert(args.deep_view() =~= old(args).deep_view() + crf_encode_args_spec(
                caps@,
                crf,
                preset@,
            ));
        },
        _ => {
            let settings = VideoEncodeSettings {
                crf,
                x264_preset: Some(preset.to_string()),
                video_bitrate: None,
                maxrate: None,
                bufsize: None,
            };
            append_h264_encode_args(args, caps, &settings);
        },
    }
}

} // verus!
