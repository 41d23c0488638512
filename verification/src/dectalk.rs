//! The DECtalk voice model: the parameter record that controls synthesized
//! timbre, pitch and rate, its per-field range validation, and the pieces of
//! the synthesis-engine boundary that are plain computation (the control
//! preamble handed to the engine, fresh output paths, and the mapping of an
//! engine exit to a result).

use vstd::prelude::*;

verus! {

/// A synthesis parameter set. Each field has an inclusive valid range,
/// checked by [`DECtalkVoice::validate`]; a record held by a store always
/// satisfies every range.
#[derive(Debug, Clone, Copy, PartialEq, Eq, Structural)]
pub struct DECtalkVoice {
    /// 0..=1: sex, 1 (male) or 0 (female)
    pub sx: u8,
    /// 65..=145 %: head size
    pub hs: u8,
    /// 2000..=4650 Hz: fourth formant frequency
    pub f4: u16,
    /// 2500..=4950 Hz: fifth formant frequency
    pub f5: u16,
    /// 100..=2048 Hz: fourth formant bandwidth
    pub b4: u16,
    /// 100..=2048 Hz: fifth formant bandwidth
    pub b5: u16,
    /// 0..=72 dB: breathiness
    pub br: u8,
    /// 0..=100 %: lax breathiness
    pub lx: u8,
    /// 0..=100 %: smoothness (high frequency attenuation)
    pub sm: u8,
    /// 0..=100 %: richness
    pub ri: u8,
    /// 0..=100: number of fixed samplings of glottal pulse open phase
    pub nf: u8,
    /// 0..=100 %: laryngealization
    pub la: u8,
    /// 0..=40 Hz: baseline fall
    pub bf: u8,
    /// 2..=100 Hz: hat rise
    pub hr: u8,
    /// 1..=100 Hz: stress rise
    pub sr: u8,
    /// 0..=100 %: assertiveness
    pub as_: u8,
    /// 0..=100 %: quickness
    pub qu: u8,
    /// 50..=350 Hz: average pitch
    pub ap: u16,
    /// 0..=250 %: pitch range
    pub pr: u8,
    /// 0..=86 dB: gain of voicing source
    pub gv: u8,
    /// 0..=86 dB: gain of aspiration source
    pub gh: u8,
    /// 0..=86 dB: gain of frication source
    pub gf: u8,
    /// 0..=86 dB: gain of nasalization
    pub gn: u8,
    /// 0..=86 dB: gain of first formant resonator
    pub g1: u8,
    /// 0..=86 dB: gain of second formant resonator
    pub g2: u8,
    /// 0..=86 dB: gain of third formant resonator
    pub g3: u8,
    /// 0..=86 dB: gain of fourth formant resonator
    pub g4: u8,
    /// 0..=86 dB: gain of fifth formant resonator
    pub g5: u8,
}

/// A profile field lies outside its valid range: the candidate record is
/// rejected before any mutation.
#[derive(Debug, Clone, Copy, PartialEq, Eq, Structural)]
pub struct ValidationError;

/// Whether `value` lies in the inclusive range `min..=max`.
pub fn range_validate(value: u16, min: u16, max: u16) -> (r: bool)
    ensures
        r == (min <= value && value <= max),
{
    value >= min && value <= max
}

impl DECtalkVoice {
    /// Every field lies within its inclusive valid range.
    pub open spec fn valid_spec(self) -> bool {
        &&& self.sx <= 1
        &&& 65 <= self.hs <= 145
        &&& 2000 <= self.f4 <= 4650
        &&& 2500 <= self.f5 <= 4950
        &&& 100 <= self.b4 <= 2048
        &&& 100 <= self.b5 <= 2048
        &&& self.br <= 72
        &&& self.lx <= 100
        &&& self.sm <= 100
        &&& self.ri <= 100
        &&& self.nf <= 100
        &&& self.la <= 100
        &&& self.bf <= 40
        &&& 2 <= self.hr <= 100
        &&& 1 <= self.sr <= 100
        &&& self.as_ <= 100
        &&& self.qu <= 100
        &&& 50 <= self.ap <= 350
        &&& self.pr <= 250
        &&& self.gv <= 86
        &&& self.gh <= 86
        &&& self.gf <= 86
        &&& self.gn <= 86
        &&& self.g1 <= 86
        &&& self.g2 <= 86
        &&& self.g3 <= 86
        &&& self.g4 <= 86
        &&& self.g5 <= 86
    }

    /// Returns true exactly when every field is within its range: a record
    /// with any single field outside its range is rejected.
    pub fn validate(&self) -> (r: bool)
        ensures
            r == self.valid_spec(),
    {
        range_validate(self.sx as u16, 0, 1)
            && range_validate(self.hs as u16, 65, 145)
            && range_validate(self.f4, 2000, 4650)
            && range_validate(self.f5, 2500, 4950)
            && range_validate(self.b4, 100, 2048)
            && range_validate(self.b5, 100, 2048)
            && range_validate(self.br as u16, 0, 72)
            && range_validate(self.lx as u16, 0, 100)
            && range_validate(self.sm as u16, 0, 100)
            && range_validate(self.ri as u16, 0, 100)
            && range_validate(self.nf as u16, 0, 100)
            && range_validate(self.la as u16, 0, 100)
            && range_validate(self.bf as u16, 0, 40)
            && range_validate(self.hr as u16, 2, 100)
            && range_validate(self.sr as u16, 1, 100)
            && range_validate(self.as_ as u16, 0, 100)
            && range_validate(self.qu as u16, 0, 100)
            && range_validate(self.ap, 50, 350)
            && range_validate(self.pr as u16, 0, 250)
            && range_validate(self.gv as u16, 0, 86)
            && range_validate(self.gh as u16, 0, 86)
            && range_validate(self.gf as u16, 0, 86)
            && range_validate(self.gn as u16, 0, 86)
            && range_validate(self.g1 as u16, 0, 86)
            && range_validate(self.g2 as u16, 0, 86)
            && range_validate(self.g3 as u16, 0, 86)
            && range_validate(self.g4 as u16, 0, 86)
            && range_validate(self.g5 as u16, 0, 86)
    }
}

/// The fixed default profile, handed out for any user that has no stored
/// profile of their own: the Paul preset.
pub open spec fn default_voice_spec() -> DECtalkVoice {
    DECtalkVoice::paul_spec()
}

impl Default for DECtalkVoice {
    /// The default profile — the Paul preset; it satisfies every field
    /// range.
    fn default() -> (v: Self)
        ensures
            v == default_voice_spec(),
            v.valid_spec(),
    {
        DECtalkVoice::paul_voice()
    }
}


/// A partial update to a voice profile: fields left `None` keep the
/// current value; the fully merged record is re-validated before any
/// commit.
#[derive(Debug, Clone, Copy, PartialEq, Eq, Structural, Default)]
pub struct VoiceOverrides {
    pub sx: Option<u8>,
    pub hs: Option<u8>,
    pub f4: Option<u16>,
    pub f5: Option<u16>,
    pub b4: Option<u16>,
    pub b5: Option<u16>,
    pub br: Option<u8>,
    pub lx: Option<u8>,
    pub sm: Option<u8>,
    pub ri: Option<u8>,
    pub nf: Option<u8>,
    pub la: Option<u8>,
    pub bf: Option<u8>,
    pub hr: Option<u8>,
    pub sr: Option<u8>,
    pub as_: Option<u8>,
    pub qu: Option<u8>,
    pub ap: Option<u16>,
    pub pr: Option<u8>,
    pub gv: Option<u8>,
    pub gh: Option<u8>,
    pub gf: Option<u8>,
    pub gn: Option<u8>,
    pub g1: Option<u8>,
    pub g2: Option<u8>,
    pub g3: Option<u8>,
    pub g4: Option<u8>,
    pub g5: Option<u8>,
}

impl DECtalkVoice {
    /// The record that merging `ov` over this profile yields: each field
    /// comes from the override when one is given, from this profile
    /// otherwise.
    pub open spec fn merged_spec(self, ov: VoiceOverrides) -> DECtalkVoice {
        DECtalkVoice {
            sx: ov.sx.unwrap_or(self.sx),
            hs: ov.hs.unwrap_or(self.hs),
            f4: ov.f4.unwrap_or(self.f4),
            f5: ov.f5.unwrap_or(self.f5),
            b4: ov.b4.unwrap_or(self.b4),
            b5: ov.b5.unwrap_or(self.b5),
            br: ov.br.unwrap_or(self.br),
            lx: ov.lx.unwrap_or(self.lx),
            sm: ov.sm.unwrap_or(self.sm),
            ri: ov.ri.unwrap_or(self.ri),
            nf: ov.nf.unwrap_or(self.nf),
            la: ov.la.unwrap_or(self.la),
            bf: ov.bf.unwrap_or(self.bf),
            hr: ov.hr.unwrap_or(self.hr),
            sr: ov.sr.unwrap_or(self.sr),
            as_: ov.as_.unwrap_or(self.as_),
            qu: ov.qu.unwrap_or(self.qu),
            ap: ov.ap.unwrap_or(self.ap),
            pr: ov.pr.unwrap_or(self.pr),
            gv: ov.gv.unwrap_or(self.gv),
            gh: ov.gh.unwrap_or(self.gh),
            gf: ov.gf.unwrap_or(self.gf),
            gn: ov.gn.unwrap_or(self.gn),
            g1: ov.g1.unwrap_or(self.g1),
            g2: ov.g2.unwrap_or(self.g2),
            g3: ov.g3.unwrap_or(self.g3),
            g4: ov.g4.unwrap_or(self.g4),
            g5: ov.g5.unwrap_or(self.g5),
        }
    }

    /// Merges a partial update over this profile, field by field.
    pub fn merged(&self, ov: &VoiceOverrides) -> (r: DECtalkVoice)
        ensures
            r == self.merged_spec(*ov),
    {
        DECtalkVoice {
            sx: ov.sx.unwrap_or(self.sx),
            hs: ov.hs.unwrap_or(self.hs),
            f4: ov.f4.unwrap_or(self.f4),
            f5: ov.f5.unwrap_or(self.f5),
            b4: ov.b4.unwrap_or(self.b4),
            b5: ov.b5.unwrap_or(self.b5),
            br: ov.br.unwrap_or(self.br),
            lx: ov.lx.unwrap_or(self.lx),
            sm: ov.sm.unwrap_or(self.sm),
            ri: ov.ri.unwrap_or(self.ri),
            nf: ov.nf.unwrap_or(self.nf),
            la: ov.la.unwrap_or(self.la),
            bf: ov.bf.unwrap_or(self.bf),
            hr: ov.hr.unwrap_or(self.hr),
            sr: ov.sr.unwrap_or(self.sr),
            as_: ov.as_.unwrap_or(self.as_),
            qu: ov.qu.unwrap_or(self.qu),
            ap: ov.ap.unwrap_or(self.ap),
            pr: ov.pr.unwrap_or(self.pr),
            gv: ov.gv.unwrap_or(self.gv),
            gh: ov.gh.unwrap_or(self.gh),
            gf: ov.gf.unwrap_or(self.gf),
            gn: ov.gn.unwrap_or(self.gn),
            g1: ov.g1.unwrap_or(self.g1),
            g2: ov.g2.unwrap_or(self.g2),
            g3: ov.g3.unwrap_or(self.g3),
            g4: ov.g4.unwrap_or(self.g4),
            g5: ov.g5.unwrap_or(self.g5),
        }
    }
}

/// The ASCII decimal digits of a non-negative number, most significant
/// first.
pub open spec fn dec_digits(n: int) -> Seq<u8>
    decreases n,
{
    if n < 0 {
        Seq::empty()
    } else if n < 10 {
        seq![(48 + n) as u8]
    } else {
        dec_digits(n / 10) + seq![(48 + n % 10) as u8]
    }
}

/// Appends the decimal digits of `n`.
fn push_decimal(out: &mut Vec<u8>, n: u16)
    ensures
        final(out)@ == old(out)@ + dec_digits(n as int),
    decreases n,
{
    if n >= 10 {
        push_decimal(out, n / 10);
        out.push(48 + (n % 10) as u8);
        proof {
            assert(final(out)@ =~= old(out)@ + dec_digits(n as int));
        }
    } else {
        out.push(48 + n as u8);
        proof {
            assert(final(out)@ =~= old(out)@ + dec_digits(n as int));
        }
    }
}

/// One parameter assignment of the control preamble: `[:dv kk v]` for the
/// two-letter key `k1 k2` and decimal value `v`.
pub open spec fn dv_entry(k1: u8, k2: u8, v: int) -> Seq<u8> {
    seq![91u8, 58u8, 100u8, 118u8, 32u8, k1, k2, 32u8] + dec_digits(v) + seq![93u8]
}

/// The opening of the control preamble: phoneme interpretation on, and the
/// engine's stock voice parameters cleared.
pub open spec fn preamble_head() -> Seq<u8> {
    seq![
        91u8,
        58u8,
        112u8,
        104u8,
        111u8,
        110u8,
        101u8,
        109u8,
        101u8,
        32u8,
        111u8,
        110u8,
        93u8,
        91u8,
        58u8,
        110u8,
        118u8,
        93u8,
    ]
}

/// The separator between preamble lines: a line feed and eight spaces.
pub open spec fn line_sep() -> Seq<u8> {
    seq![10u8, 32u8, 32u8, 32u8, 32u8, 32u8, 32u8, 32u8, 32u8]
}

/// The whole control preamble for a profile: every field as a `key value`
/// pair, in the fixed documented order.
pub open spec fn preamble_spec(v: DECtalkVoice) -> Seq<u8> {
    preamble_head() + line_sep() + dv_entry(115u8, 120u8, v.sx as int) + dv_entry(
        104u8,
        115u8,
        v.hs as int,
    ) + dv_entry(102u8, 52u8, v.f4 as int) + dv_entry(102u8, 53u8, v.f5 as int) + dv_entry(
        98u8,
        52u8,
        v.b4 as int,
    ) + dv_entry(98u8, 53u8, v.b5 as int) + line_sep() + dv_entry(98u8, 114u8, v.br as int)
        + dv_entry(108u8, 120u8, v.lx as int) + dv_entry(115u8, 109u8, v.sm as int) + dv_entry(
        114u8,
        105u8,
        v.ri as int,
    ) + dv_entry(110u8, 102u8, v.nf as int) + dv_entry(108u8, 97u8, v.la as int) + line_sep()
        + dv_entry(98u8, 102u8, v.bf as int) + dv_entry(104u8, 114u8, v.hr as int) + dv_entry(
        115u8,
        114u8,
        v.sr as int,
    ) + dv_entry(97u8, 115u8, v.as_ as int) + dv_entry(113u8, 117u8, v.qu as int) + dv_entry(
        97u8,
        112u8,
        v.ap as int,
    ) + dv_entry(112u8, 114u8, v.pr as int) + line_sep() + dv_entry(103u8, 118u8, v.gv as int)
        + dv_entry(103u8, 104u8, v.gh as int) + dv_entry(103u8, 102u8, v.gf as int) + dv_entry(
        103u8,
        110u8,
        v.gn as int,
    ) + dv_entry(103u8, 49u8, v.g1 as int) + dv_entry(103u8, 50u8, v.g2 as int) + dv_entry(
        103u8,
        51u8,
        v.g3 as int,
    ) + dv_entry(103u8, 52u8, v.g4 as int) + dv_entry(103u8, 53u8, v.g5 as int)
}

/// Appends one `[:dv kk v]` assignment.
fn push_entry(out: &mut Vec<u8>, k1: u8, k2: u8, v: u16)
    ensures
        final(out)@ == old(out)@ + dv_entry(k1, k2, v as int),
{
    out.push(91u8);
    out.push(58u8);
    out.push(100u8);
    out.push(118u8);
    out.push(32u8);
    out.push(k1);
    out.push(k2);
    out.push(32u8);
    push_decimal(out, v);
    out.push(93u8);
    proof {
        assert(final(out)@ =~= old(out)@ + dv_entry(k1, k2, v as int));
    }
}

/// Appends the line separator: a line feed and eight spaces.
fn push_sep(out: &mut Vec<u8>)
    ensures
        final(out)@ == old(out)@ + line_sep(),
{
    out.push(10u8);
    out.push(32u8);
    out.push(32u8);
    out.push(32u8);
    out.push(32u8);
    out.push(32u8);
    out.push(32u8);
    out.push(32u8);
    out.push(32u8);
    proof {
        assert(final(out)@ =~= old(out)@ + line_sep());
    }
}

/// Serializes a profile into the engine's control preamble: every field as
/// a `[:dv key value]` pair in the fixed documented order, preceded by the
/// directives that turn phoneme interpretation on and clear the stock
/// voice.
pub fn control_preamble(voice: &DECtalkVoice) -> (r: Vec<u8>)
    ensures
        r@ == preamble_spec(*voice),
{
    let mut out: Vec<u8> = Vec::new();
    out.push(91u8);
    out.push(58u8);
    out.push(112u8);
    out.push(104u8);
    out.push(111u8);
    out.push(110u8);
    out.push(101u8);
    out.push(109u8);
    out.push(101u8);
    out.push(32u8);
    out.push(111u8);
    out.push(110u8);
    out.push(93u8);
    out.push(91u8);
    out.push(58u8);
    out.push(110u8);
    out.push(118u8);
    out.push(93u8);
    proof {
        assert(out@ =~= preamble_head());
    }
    push_sep(&mut out);
    push_entry(&mut out, 115u8, 120u8, voice.sx as u16);
    push_entry(&mut out, 104u8, 115u8, voice.hs as u16);
    push_entry(&mut out, 102u8, 52u8, voice.f4);
    push_entry(&mut out, 102u8, 53u8, voice.f5);
    push_entry(&mut out, 98u8, 52u8, voice.b4);
    push_entry(&mut out, 98u8, 53u8, voice.b5);
    push_sep(&mut out);
    push_entry(&mut out, 98u8, 114u8, voice.br as u16);
    push_entry(&mut out, 108u8, 120u8, voice.lx as u16);
    push_entry(&mut out, 115u8, 109u8, voice.sm as u16);
    push_entry(&mut out, 114u8, 105u8, voice.ri as u16);
    push_entry(&mut out, 110u8, 102u8, voice.nf as u16);
    push_entry(&mut out, 108u8, 97u8, voice.la as u16);
    push_sep(&mut out);
    push_entry(&mut out, 98u8, 102u8, voice.bf as u16);
    push_entry(&mut out, 104u8, 114u8, voice.hr as u16);
    push_entry(&mut out, 115u8, 114u8, voice.sr as u16);
    push_entry(&mut out, 97u8, 115u8, voice.as_ as u16);
    push_entry(&mut out, 113u8, 117u8, voice.qu as u16);
    push_entry(&mut out, 97u8, 112u8, voice.ap);
    push_entry(&mut out, 112u8, 114u8, voice.pr as u16);
    push_sep(&mut out);
    push_entry(&mut out, 103u8, 118u8, voice.gv as u16);
    push_entry(&mut out, 103u8, 104u8, voice.gh as u16);
    push_entry(&mut out, 103u8, 102u8, voice.gf as u16);
    push_entry(&mut out, 103u8, 110u8, voice.gn as u16);
    push_entry(&mut out, 103u8, 49u8, voice.g1 as u16);
    push_entry(&mut out, 103u8, 50u8, voice.g2 as u16);
    push_entry(&mut out, 103u8, 51u8, voice.g3 as u16);
    push_entry(&mut out, 103u8, 52u8, voice.g4 as u16);
    push_entry(&mut out, 103u8, 53u8, voice.g5 as u16);
    out
}

/// A failure of the synthesis boundary.
#[derive(Debug, Clone, PartialEq, Eq)]
pub enum DECtalkError {
    /// The engine or its files could not be reached.
    IOError(String),
    /// The engine exited with a non-zero status; the payload is its
    /// diagnostic output.
    SayError(String),
}

/// Relies on `uuid::Uuid::new_v4` and its display form: a fresh random
/// version-4 UUID rendered as 36 lowercase hexadecimal and hyphen
/// characters.
#[verifier::external_body]
fn fresh_token() -> (r: String)
    ensures
        r@.len() == 36,
{
    uuid::Uuid::new_v4().to_string()
}

/// A fresh output path for one synthesis run: `dectalk/<token>.wav` with a
/// random collision-free token, so concurrent runs never share a path.
pub fn fresh_wav_path() -> (r: String)
    ensures
        r@.len() == 48,
        r@.subrange(0, 8) == "dectalk/"@,
        r@.subrange(44, 48) == ".wav"@,
{
    let mut s = String::from_str("dectalk/");
    let token = fresh_token();
    s.append(token.as_str());
    s.append(".wav");
    proof {
        reveal_strlit("dectalk/");
        reveal_strlit(".wav");
        assert(s@.subrange(0, 8) =~= "dectalk/"@);
        assert(s@.subrange(44, 48) =~= ".wav"@);
    }
    s
}

/// What one engine run amounts to: a successful exit yields the output
/// path, a non-zero exit yields `SayError` carrying the engine's
/// diagnostic output.
pub fn synthesis_outcome(success: bool, stderr: String, path: String) -> (r: Result<
    String,
    DECtalkError,
>)
    ensures
        success <==> r is Ok,
        r matches Ok(p) ==> p == path,
        !success ==> r == Result::<String, DECtalkError>::Err(DECtalkError::SayError(stderr)),
{
    if success {
        Ok(path)
    } else {
        Err(DECtalkError::SayError(stderr))
    }
}


/// The engine's stock voice presets, by their traditional names. The
/// preset-selection command surface resolves a name to one of these and
/// commits it through the profile store; every preset satisfies every
/// field range.
impl DECtalkVoice {
    /// The record of the Paul preset.
    pub open spec fn paul_spec() -> DECtalkVoice {
        DECtalkVoice {
            sx: 1,
            hs: 100,
            f4: 3300,
            f5: 3650,
            b4: 260,
            b5: 330,
            br: 0,
            lx: 0,
            sm: 3,
            ri: 70,
            nf: 0,
            la: 0,
            bf: 18,
            hr: 18,
            sr: 32,
            as_: 100,
            qu: 40,
            ap: 122,
            pr: 100,
            gv: 65,
            gh: 70,
            gf: 70,
            gn: 74,
            g1: 68,
            g2: 60,
            g3: 48,
            g4: 64,
            g5: 86,
        }
    }

    /// The Paul preset; it satisfies every field range.
    pub fn paul_voice() -> (v: DECtalkVoice)
        ensures
            v == DECtalkVoice::paul_spec(),
            v.valid_spec(),
    {
        DECtalkVoice {
            sx: 1,
            hs: 100,
            f4: 3300,
            f5: 3650,
            b4: 260,
            b5: 330,
            br: 0,
            lx: 0,
            sm: 3,
            ri: 70,
            nf: 0,
            la: 0,
            bf: 18,
            hr: 18,
            sr: 32,
            as_: 100,
            qu: 40,
            ap: 122,
            pr: 100,
            gv: 65,
            gh: 70,
            gf: 70,
            gn: 74,
            g1: 68,
            g2: 60,
            g3: 48,
            g4: 64,
            g5: 86,
        }
    }

    /// The record of the Harry preset.
    pub open spec fn harry_spec() -> DECtalkVoice {
        DECtalkVoice {
            sx: 1,
            hs: 115,
            f4: 3300,
            f5: 3850,
            b4: 200,
            b5: 240,
            br: 0,
            lx: 0,
            sm: 12,
            ri: 86,
            nf: 10,
            la: 0,
            bf: 9,
            hr: 20,
            sr: 30,
            as_: 100,
            qu: 10,
            ap: 89,
            pr: 80,
            gv: 65,
            gh: 70,
            gf: 70,
            gn: 73,
            g1: 71,
            g2: 60,
            g3: 52,
            g4: 64,
            g5: 81,
        }
    }

    /// The Harry preset; it satisfies every field range.
    pub fn harry_voice() -> (v: DECtalkVoice)
        ensures
            v == DECtalkVoice::harry_spec(),
            v.valid_spec(),
    {
        DECtalkVoice {
            sx: 1,
            hs: 115,
            f4: 3300,
            f5: 3850,
            b4: 200,
            b5: 240,
            br: 0,
            lx: 0,
            sm: 12,
            ri: 86,
            nf: 10,
            la: 0,
            bf: 9,
            hr: 20,
            sr: 30,
            as_: 100,
            qu: 10,
            ap: 89,
            pr: 80,
            gv: 65,
            gh: 70,
            gf: 70,
            gn: 73,
            g1: 71,
            g2: 60,
            g3: 52,
            g4: 64,
            g5: 81,
        }
    }

    /// The record of the Frank preset.
    pub open spec fn frank_spec() -> DECtalkVoice {
        DECtalkVoice {
            sx: 1,
            hs: 90,
            f4: 3650,
            f5: 4200,
            b4: 280,
            b5: 300,
            br: 50,
            lx: 50,
            sm: 46,
            ri: 40,
            nf: 0,
            la: 5,
            bf: 9,
            hr: 20,
            sr: 22,
            as_: 65,
            qu: 0,
            ap: 155,
            pr: 90,
            gv: 63,
            gh: 68,
            gf: 68,
            gn: 75,
            g1: 63,
            g2: 58,
            g3: 56,
            g4: 66,
            g5: 86,
        }
    }

    /// The Frank preset; it satisfies every field range.
    pub fn frank_voice() -> (v: DECtalkVoice)
        ensures
            v == DECtalkVoice::frank_spec(),
            v.valid_spec(),
    {
        DECtalkVoice {
            sx: 1,
            hs: 90,
            f4: 3650,
            f5: 4200,
            b4: 280,
            b5: 300,
            br: 50,
            lx: 50,
            sm: 46,
            ri: 40,
            nf: 0,
            la: 5,
            bf: 9,
            hr: 20,
            sr: 22,
            as_: 65,
            qu: 0,
            ap: 155,
            pr: 90,
            gv: 63,
            gh: 68,
            gf: 68,
            gn: 75,
            g1: 63,
            g2: 58,
            g3: 56,
            g4: 66,
            g5: 86,
        }
    }

    /// The record of the Dennis preset.
    pub open spec fn dennis_spec() -> DECtalkVoice {
        DECtalkVoice {
            sx: 1,
            hs: 105,
            f4: 3200,
            f5: 3600,
            b4: 240,
            b5: 280,
            br: 38,
            lx: 70,
            sm: 100,
            ri: 0,
            nf: 10,
            la: 0,
            bf: 9,
            hr: 20,
            sr: 22,
            as_: 100,
            qu: 50,
            ap: 110,
            pr: 135,
            gv: 63,
            gh: 68,
            gf: 68,
            gn: 76,
            g1: 75,
            g2: 60,
            g3: 52,
            g4: 61,
            g5: 84,
        }
    }

    /// The Dennis preset; it satisfies every field range.
    pub fn dennis_voice() -> (v: DECtalkVoice)
        ensures
            v == DECtalkVoice::dennis_spec(),
            v.valid_spec(),
    {
        DECtalkVoice {
            sx: 1,
            hs: 105,
            f4: 3200,
            f5: 3600,
            b4: 240,
            b5: 280,
            br: 38,
            lx: 70,
            sm: 100,
            ri: 0,
            nf: 10,
            la: 0,
            bf: 9,
            hr: 20,
            sr: 22,
            as_: 100,
            qu: 50,
            ap: 110,
            pr: 135,
            gv: 63,
            gh: 68,
            gf: 68,
            gn: 76,
            g1: 75,
            g2: 60,
            g3: 52,
            g4: 61,
            g5: 84,
        }
    }

    /// The record of the Betty preset.
    pub open spec fn betty_spec() -> DECtalkVoice {
        DECtalkVoice {
            sx: 0,
            hs: 100,
            f4: 4450,
            f5: 2500,
            b4: 260,
            b5: 2048,
            br: 0,
            lx: 80,
            sm: 4,
            ri: 40,
            nf: 0,
            la: 0,
            bf: 0,
            hr: 14,
            sr: 20,
            as_: 35,
            qu: 55,
            ap: 208,
            pr: 140,
            gv: 65,
            gh: 70,
            gf: 72,
            gn: 72,
            g1: 69,
            g2: 65,
            g3: 50,
            g4: 56,
            g5: 81,
        }
    }

    /// The Betty preset; it satisfies every field range.
    pub fn betty_voice() -> (v: DECtalkVoice)
        ensures
            v == DECtalkVoice::betty_spec(),
            v.valid_spec(),
    {
        DECtalkVoice {
            sx: 0,
            hs: 100,
            f4: 4450,
            f5: 2500,
            b4: 260,
            b5: 2048,
            br: 0,
            lx: 80,
            sm: 4,
            ri: 40,
            nf: 0,
            la: 0,
            bf: 0,
            hr: 14,
            sr: 20,
            as_: 35,
            qu: 55,
            ap: 208,
            pr: 140,
            gv: 65,
            gh: 70,
            gf: 72,
            gn: 72,
            g1: 69,
            g2: 65,
            g3: 50,
            g4: 56,
            g5: 81,
        }
    }

    /// The record of the Ursula preset.
    pub open spec fn ursula_spec() -> DECtalkVoice {
        DECtalkVoice {
            sx: 0,
            hs: 95,
            f4: 4500,
            f5: 2500,
            b4: 230,
            b5: 2048,
            br: 0,
            lx: 50,
            sm: 60,
            ri: 100,
            nf: 10,
            la: 0,
            bf: 8,
            hr: 20,
            sr: 32,
            as_: 100,
            qu: 30,
            ap: 240,
            pr: 135,
            gv: 65,
            gh: 70,
            gf: 70,
            gn: 74,
            g1: 67,
            g2: 65,
            g3: 51,
            g4: 58,
            g5: 80,
        }
    }

    /// The Ursula preset; it satisfies every field range.
    pub fn ursula_voice() -> (v: DECtalkVoice)
        ensures
            v == DECtalkVoice::ursula_spec(),
            v.valid_spec(),
    {
        DECtalkVoice {
            sx: 0,
            hs: 95,
            f4: 4500,
            f5: 2500,
            b4: 230,
            b5: 2048,
            br: 0,
            lx: 50,
            sm: 60,
            ri: 100,
            nf: 10,
            la: 0,
            bf: 8,
            hr: 20,
            sr: 32,
            as_: 100,
            qu: 30,
            ap: 240,
            pr: 135,
            gv: 65,
            gh: 70,
            gf: 70,
            gn: 74,
            g1: 67,
            g2: 65,
            g3: 51,
            g4: 58,
            g5: 80,
        }
    }

    /// The record of the Wendy preset.
    pub open spec fn wendy_spec() -> DECtalkVoice {
        DECtalkVoice {
            sx: 0,
            hs: 100,
            f4: 4500,
            f5: 2500,
            b4: 400,
            b5: 2048,
            br: 55,
            lx: 80,
            sm: 100,
            ri: 0,
            nf: 10,
            la: 0,
            bf: 0,
            hr: 20,
            sr: 22,
            as_: 50,
            qu: 10,
            ap: 200,
            pr: 175,
            gv: 51,
            gh: 68,
            gf: 70,
            gn: 75,
            g1: 69,
            g2: 62,
            g3: 53,
            g4: 55,
            g5: 83,
        }
    }

    /// The Wendy preset; it satisfies every field range.
    pub fn wendy_voice() -> (v: DECtalkVoice)
        ensures
            v == DECtalkVoice::wendy_spec(),
            v.valid_spec(),
    {
        DECtalkVoice {
            sx: 0,
            hs: 100,
            f4: 4500,
            f5: 2500,
            b4: 400,
            b5: 2048,
            br: 55,
            lx: 80,
            sm: 100,
            ri: 0,
            nf: 10,
            la: 0,
            bf: 0,
            hr: 20,
            sr: 22,
            as_: 50,
            qu: 10,
            ap: 200,
            pr: 175,
            gv: 51,
            gh: 68,
            gf: 70,
            gn: 75,
            g1: 69,
            g2: 62,
            g3: 53,
            g4: 55,
            g5: 83,
        }
    }

    /// The record of the Rita preset.
    pub open spec fn rita_spec() -> DECtalkVoice {
        DECtalkVoice {
            sx: 0,
            hs: 95,
            f4: 4000,
            f5: 2500,
            b4: 250,
            b5: 2048,
            br: 46,
            lx: 0,
            sm: 24,
            ri: 20,
            nf: 0,
            la: 4,
            bf: 0,
            hr: 20,
            sr: 32,
            as_: 65,
            qu: 30,
            ap: 106,
            pr: 80,
            gv: 65,
            gh: 70,
            gf: 72,
            gn: 73,
            g1: 69,
            g2: 72,
            g3: 48,
            g4: 54,
            g5: 83,
        }
    }

    /// The Rita preset; it satisfies every field range.
    pub fn rita_voice() -> (v: DECtalkVoice)
        ensures
            v == DECtalkVoice::rita_spec(),
            v.valid_spec(),
    {
        DECtalkVoice {
            sx: 0,
            hs: 95,
            f4: 4000,
            f5: 2500,
            b4: 250,
            b5: 2048,
            br: 46,
            lx: 0,
            sm: 24,
            ri: 20,
            nf: 0,
            la: 4,
            bf: 0,
            hr: 20,
            sr: 32,
            as_: 65,
            qu: 30,
            ap: 106,
            pr: 80,
            gv: 65,
            gh: 70,
            gf: 72,
            gn: 73,
            g1: 69,
            g2: 72,
            g3: 48,
            g4: 54,
            g5: 83,
        }
    }

    /// The record of the Kit preset.
    pub open spec fn kit_spec() -> DECtalkVoice {
        DECtalkVoice {
            sx: 0,
            hs: 80,
            f4: 2500,
            f5: 2500,
            b4: 2048,
            b5: 2048,
            br: 47,
            lx: 75,
            sm: 5,
            ri: 40,
            nf: 0,
            la: 0,
            bf: 0,
            hr: 20,
            sr: 22,
            as_: 65,
            qu: 50,
            ap: 306,
            pr: 210,
            gv: 65,
            gh: 70,
            gf: 72,
            gn: 71,
            g1: 69,
            g2: 69,
            g3: 52,
            g4: 50,
            g5: 73,
        }
    }

    /// The Kit preset; it satisfies every field range.
    pub fn kit_voice() -> (v: DECtalkVoice)
        ensures
            v == DECtalkVoice::kit_spec(),
            v.valid_spec(),
    {
        DECtalkVoice {
            sx: 0,
            hs: 80,
            f4: 2500,
            f5: 2500,
            b4: 2048,
            b5: 2048,
            br: 47,
            lx: 75,
            sm: 5,
            ri: 40,
            nf: 0,
            la: 0,
            bf: 0,
            hr: 20,
            sr: 22,
            as_: 65,
            qu: 50,
            ap: 306,
            pr: 210,
            gv: 65,
            gh: 70,
            gf: 72,
            gn: 71,
            g1: 69,
            g2: 69,
            g3: 52,
            g4: 50,
            g5: 73,
        }
    }

}

} // verus!
