use vstd::prelude::*;
use crate::format::Format;

verus! {

/// An encoder preset.
#[derive(Clone, Copy, Hash, Debug, PartialEq, Eq, Structural)]
pub enum Preset {
    Ultrafast,
    Superfast,
    Veryfast,
    Faster,
    Fast,
    Medium,
    Slow,
    Slower,
    Veryslow,
    Placebo,
}

/// The identifier by which the engine knows a preset.
pub open spec fn preset_name(p: Preset) -> Seq<char> {
    match p {
        Preset::Ultrafast => "ultrafast"@,
        Preset::Superfast => "superfast"@,
        Preset::Veryfast => "veryfast"@,
        Preset::Faster => "faster"@,
        Preset::Fast => "fast"@,
        Preset::Medium => "medium"@,
        Preset::Slow => "slow"@,
        Preset::Slower => "slower"@,
        Preset::Veryslow => "veryslow"@,
        Preset::Placebo => "placebo"@,
    }
}

impl Preset {
    /// The preset's identifier, as the engine expects it.
    pub fn to_cstr(self) -> (r: &'static str)
        ensures
            r@ == preset_name(self),
    {
        match self {
            Preset::Ultrafast => "ultrafast",
            Preset::Superfast => "superfast",
            Preset::Veryfast => "veryfast",
            Preset::Faster => "faster",
            Preset::Fast => "fast",
            Preset::Medium => "medium",
            Preset::Slow => "slow",
            Preset::Slower => "slower",
            Preset::Veryslow => "veryslow",
            Preset::Placebo => "placebo",
        }
    }
}

/// An encoder tuning.
#[derive(Clone, Copy, Hash, Debug, PartialEq, Eq, Structural)]
pub enum Tune {
    Untuned,
    Film,
    Animation,
    Grain,
    StillImage,
    Psnr,
    Ssim,
}

/// The engine's name of a tuning on its own; `Untuned` has none.
pub open spec fn tune_word(t: Tune) -> Seq<char> {
    match t {
        Tune::Untuned => ""@,
        Tune::Film => "film"@,
        Tune::Animation => "animation"@,
        Tune::Grain => "grain"@,
        Tune::StillImage => "stillimage"@,
        Tune::Psnr => "psnr"@,
        Tune::Ssim => "ssim"@,
    }
}

/// Words joined by commas.
pub open spec fn comma_join(words: Seq<Seq<char>>) -> Seq<char>
    decreases words.len(),
{
    if words.len() == 0 {
        Seq::empty()
    } else if words.len() == 1 {
        words[0]
    } else {
        words[0] + seq![','] + comma_join(words.drop_first())
    }
}

/// The words of a tuning identifier: "fastdecode" when asked for, then
/// "zerolatency" when asked for, then the tuning's own name if it has one.
pub open spec fn tune_words(t: Tune, fast_decode: bool, zero_latency: bool) -> Seq<Seq<char>> {
    (if fast_decode { seq!["fastdecode"@] } else { Seq::empty() })
        + (if zero_latency { seq!["zerolatency"@] } else { Seq::empty() })
        + (if t == Tune::Untuned { Seq::empty() } else { seq![tune_word(t)] })
}

/// The identifier by which the engine knows a tuning with the two flags.
pub open spec fn tune_name(t: Tune, fast_decode: bool, zero_latency: bool) -> Seq<char> {
    comma_join(tune_words(t, fast_decode, zero_latency))
}

/// A tuning identifier is the flags' words, then the tuning's own name, with
/// a comma between each two.
proof fn lemma_tune_name_shape(t: Tune, fast_decode: bool, zero_latency: bool)
    ensures
        ({
            let flags = if fast_decode && zero_latency {
                "fastdecode"@ + seq![','] + "zerolatency"@
            } else if fast_decode {
                "fastdecode"@
            } else if zero_latency {
                "zerolatency"@
            } else {
                Seq::empty()
            };
            tune_name(t, fast_decode, zero_latency) == if t == Tune::Untuned {
                flags
            } else if !fast_decode && !zero_latency {
                tune_word(t)
            } else {
                flags + seq![','] + tune_word(t)
            }
        }),
{
    reveal_with_fuel(comma_join, 4);
    let w = tune_words(t, fast_decode, zero_latency);
    let a = "fastdecode"@;
    let b = "zerolatency"@;
    let c = tune_word(t);
    if fast_decode && zero_latency {
        if t == Tune::Untuned {
            assert(w =~= seq![a, b]);
            assert(w.drop_first() =~= seq![b]);
        } else {
            assert(w =~= seq![a, b, c]);
            assert(w.drop_first() =~= seq![b, c]);
            assert(w.drop_first().drop_first() =~= seq![c]);
            assert(a + seq![','] + (b + seq![','] + c) =~= a + seq![','] + b + seq![','] + c);
        }
    } else if fast_decode || zero_latency {
        let f = if fast_decode { a } else { b };
        if t == Tune::Untuned {
            assert(w =~= seq![f]);
        } else {
            assert(w =~= seq![f, c]);
            assert(w.drop_first() =~= seq![c]);
        }
    } else {
        if t == Tune::Untuned {
            assert(w =~= Seq::<Seq<char>>::empty());
        } else {
            assert(w =~= seq![c]);
        }
    }
}

impl Tune {
    /// The tuning's identifier together with the fast-decode and zero-latency
    /// flags, as the engine expects it.
    #[verifier::rlimit(40)]
    pub fn to_cstr(self, fast_decode: bool, zero_latency: bool) -> (r: &'static str)
        ensures
            r@ == tune_name(self, fast_decode, zero_latency),
    {
        let r = if !fast_decode && !zero_latency {
            match self {
                Tune::Untuned => "",
                Tune::Film => "film",
                Tune::Animation => "animation",
                Tune::Grain => "grain",
                Tune::StillImage => "stillimage",
                Tune::Psnr => "psnr",
                Tune::Ssim => "ssim",
            }
        } else if fast_decode && !zero_latency {
            match self {
                Tune::Untuned => "fastdecode",
                Tune::Film => "fastdecode,film",
                Tune::Animation => "fastdecode,animation",
                Tune::Grain => "fastdecode,grain",
                Tune::StillImage => "fastdecode,stillimage",
                Tune::Psnr => "fastdecode,psnr",
                Tune::Ssim => "fastdecode,ssim",
            }
        } else if !fast_decode && zero_latency {
            match self {
                Tune::Untuned => "zerolatency",
                Tune::Film => "zerolatency,film",
                Tune::Animation => "zerolatency,animation",
                Tune::Grain => "zerolatency,grain",
                Tune::StillImage => "zerolatency,stillimage",
                Tune::Psnr => "zerolatency,psnr",
                Tune::Ssim => "zerolatency,ssim",
            }
        } else {
            match self {
                Tune::Untuned => "fastdecode,zerolatency",
                Tune::Film => "fastdecode,zerolatency,film",
                Tune::Animation => "fastdecode,zerolatency,animation",
                Tune::Grain => "fastdecode,zerolatency,grain",
                Tune::StillImage => "fastdecode,zerolatency,stillimage",
                Tune::Psnr => "fastdecode,zerolatency,psnr",
                Tune::Ssim => "fastdecode,zerolatency,ssim",
            }
        };
        proof {
            reveal_strlit("");
            reveal_strlit("film");
            reveal_strlit("animation");
            reveal_strlit("grain");
            reveal_strlit("stillimage");
            reveal_strlit("psnr");
            reveal_strlit("ssim");
            reveal_strlit("fastdecode");
            reveal_strlit("zerolatency");
            reveal_strlit("fastdecode,film");
            reveal_strlit("fastdecode,animation");
            reveal_strlit("fastdecode,grain");
            reveal_strlit("fastdecode,stillimage");
            reveal_strlit("fastdecode,psnr");
            reveal_strlit("fastdecode,ssim");
            reveal_strlit("zerolatency,film");
            reveal_strlit("zerolatency,animation");
            reveal_strlit("zerolatency,grain");
            reveal_strlit("zerolatency,stillimage");
            reveal_strlit("zerolatency,psnr");
            reveal_strlit("zerolatency,ssim");
            reveal_strlit("fastdecode,zerolatency,film");
            reveal_strlit("fastdecode,zerolatency,animation");
            reveal_strlit("fastdecode,zerolatency,grain");
            reveal_strlit("fastdecode,zerolatency,stillimage");
            reveal_strlit("fastdecode,zerolatency,psnr");
            reveal_strlit("fastdecode,zerolatency,ssim");
            reveal_strlit("fastdecode,zerolatency");
            lemma_tune_name_shape(self, fast_decode, zero_latency);
            assert(r@ =~= tune_name(self, fast_decode, zero_latency));
        }
        r
    }
}

} // verus!

verus! {

/// A profile restriction that the engine applies to the parameter block.
#[derive(Clone, Copy, Hash, Debug, PartialEq, Eq, Structural)]
pub enum Profile {
    Baseline,
    Main,
    High,
}

/// The identifier by which the engine knows a profile.
pub open spec fn profile_name(p: Profile) -> Seq<char> {
    match p {
        Profile::Baseline => "baseline"@,
        Profile::Main => "main"@,
        Profile::High => "high"@,
    }
}

impl Profile {
    /// The profile's identifier, as the engine expects it.
    pub fn to_cstr(self) -> (r: &'static str)
        ensures
            r@ == profile_name(self),
    {
        match self {
            Profile::Baseline => "baseline",
            Profile::Main => "main",
            Profile::High => "high",
        }
    }
}

/// The preset selection that a parameter block starts from.
#[derive(Clone, Copy, Hash, Debug, PartialEq, Eq, Structural)]
pub struct Tuning {
    pub preset: Preset,
    pub tune: Tune,
    pub fast_decode: bool,
    pub zero_latency: bool,
}

/// Used to build the encoder: the engine's parameter block as the list of
/// what is to be done to it. The block starts from the engine's defaults, or
/// from `tuning` where one was chosen; the fast first pass and the profile are
/// applied after it, the colorspace last. Each other field, where set, is
/// written into the block as it is: the engine alone judges the values.
#[derive(Debug)]
pub struct Setup {
    pub tuning: Option<Tuning>,
    pub fastfirstpass: bool,
    pub width: Option<i32>,
    pub height: Option<i32>,
    pub fps: Option<(u32, u32)>,
    pub timebase: Option<(u32, u32)>,
    pub annexb: Option<bool>,
    pub bitrate: Option<i32>,
    pub profile: Option<Profile>,
}

/// A parameter block that is ready for the engine to open: the setup and the
/// colorspace of the format that the encoder is bound to.
#[derive(Debug)]
pub struct Params {
    pub setup: Setup,
    pub colorspace: i32,
}

/// The engine's defaults, with nothing changed.
pub open spec fn untouched(tuning: Option<Tuning>) -> Setup {
    Setup {
        tuning,
        fastfirstpass: false,
        width: None,
        height: None,
        fps: None,
        timebase: None,
        annexb: None,
        bitrate: None,
        profile: None,
    }
}

impl Default for Setup {
    /// Begin with the engine's defaults.
    fn default() -> (r: Setup)
        ensures
            r == untouched(None),
    {
        Setup {
            tuning: None,
            fastfirstpass: false,
            width: None,
            height: None,
            fps: None,
            timebase: None,
            annexb: None,
            bitrate: None,
            profile: None,
        }
    }
}

impl Setup {
    /// Begin with a preset and a tuning.
    pub fn preset(preset: Preset, tune: Tune, fast_decode: bool, zero_latency: bool) -> (r: Setup)
        ensures
            r == untouched(Some(Tuning { preset, tune, fast_decode, zero_latency })),
    {
        let tuning = Tuning { preset, tune, fast_decode, zero_latency };
        Setup {
            tuning: Some(tuning),
            fastfirstpass: false,
            width: None,
            height: None,
            fps: None,
            timebase: None,
            annexb: None,
            bitrate: None,
            profile: None,
        }
    }

    /// The first pass will be faster.
    pub fn fastfirstpass(self) -> (r: Setup)
        ensures
            r == (Setup { fastfirstpass: true, ..self }),
    {
        Setup { fastfirstpass: true, ..self }
    }

    /// The width of the video, in pixels.
    pub fn width(self, width: i32) -> (r: Setup)
        ensures
            r == (Setup { width: Some(width), ..self }),
    {
        Setup { width: Some(width), ..self }
    }

    /// The height of the video, in pixels.
    pub fn height(self, height: i32) -> (r: Setup)
        ensures
            r == (Setup { height: Some(height), ..self }),
    {
        Setup { height: Some(height), ..self }
    }

    /// The video's frame rate, as a rational number.
    pub fn fps(self, num: u32, den: u32) -> (r: Setup)
        ensures
            r == (Setup { fps: Some((num, den)), ..self }),
    {
        Setup { fps: Some((num, den)), ..self }
    }

    /// The encoder's time base, used in rate control with timestamps.
    pub fn timebase(self, num: u32, den: u32) -> (r: Setup)
        ensures
            r == (Setup { timebase: Some((num, den)), ..self }),
    {
        Setup { timebase: Some((num, den)), ..self }
    }

    /// Whether the output uses Annex-B start codes rather than length
    /// prefixes.
    pub fn annexb(self, annexb: bool) -> (r: Setup)
        ensures
            r == (Setup { annexb: Some(annexb), ..self }),
    {
        Setup { annexb: Some(annexb), ..self }
    }

    /// The target bitrate.
    pub fn bitrate(self, bitrate: i32) -> (r: Setup)
        ensures
            r == (Setup { bitrate: Some(bitrate), ..self }),
    {
        Setup { bitrate: Some(bitrate), ..self }
    }

    /// Use the baseline profile; a later profile replaces it.
    pub fn baseline(self) -> (r: Setup)
        ensures
            r == (Setup { profile: Some(Profile::Baseline), ..self }),
    {
        Setup { profile: Some(Profile::Baseline), ..self }
    }

    /// Use the main profile; a later profile replaces it.
    pub fn main(self) -> (r: Setup)
        ensures
            r == (Setup { profile: Some(Profile::Main), ..self }),
    {
        Setup { profile: Some(Profile::Main), ..self }
    }

    /// Use the high profile; a later profile replaces it.
    pub fn high(self) -> (r: Setup)
        ensures
            r == (Setup { profile: Some(Profile::High), ..self }),
    {
        Setup { profile: Some(Profile::High), ..self }
    }

    /// Binds the colorspace of the format `F`, which makes the parameter
    /// block that the engine opens an encoder with.
    pub fn build<F: Format>(self) -> (r: Params)
        ensures
            r.setup == self,
            r.colorspace == F::spec_colorspace(),
    {
        Params { setup: self, colorspace: F::colorspace() }
    }
}

} // verus!
