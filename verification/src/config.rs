//! The capability header `config.h` that the native sources are compiled
//! against: sizes of the native integers, forced overrides, and the vector
//! instruction tiers of the target.

use vstd::prelude::*;
use crate::text::{
    all_lines,
    decimal,
    has_line,
    is_line,
    join_lines,
    joined,
    lemma_decimal_digits,
    lemma_lines_of_joined,
    push_decimal,
    views,
};

verus! {

/// What a build knows of its target and of its override switches.
#[derive(Debug, Clone, Copy, PartialEq, Eq)]
pub struct CapabilityFacts {
    /// The size of the native `int`, in bytes.
    pub sizeof_int: usize,
    /// The size of the native `unsigned int`, in bytes.
    pub sizeof_unsigned_int: usize,
    /// Forces the portable code path of the vectorized kernels.
    pub simd_override: bool,
    /// Forces the portable code path of the transform kernels.
    pub fft_override: bool,
    /// The target has the baseline multimedia extension.
    pub have_mmx: bool,
    /// The target has SSE.
    pub have_sse: bool,
    /// The target has SSE2.
    pub have_sse2: bool,
    /// The target has SSE3.
    pub have_sse3: bool,
}

/// The line that defines the macro `name` as 1.
pub open spec fn define_flag(name: Seq<char>) -> Seq<char> {
    "#define "@ + name + " 1"@
}

/// The line that defines the macro `name` as the number `n` in parentheses.
pub open spec fn define_size(name: Seq<char>, n: nat) -> Seq<char> {
    "#define "@ + name + " ("@ + decimal(n) + ")"@
}

/// The line of an override macro, if the override is active.
pub open spec fn flag_lines(active: bool, name: Seq<char>) -> Seq<Seq<char>> {
    if active {
        seq![define_flag(name)]
    } else {
        Seq::empty()
    }
}

/// The two lines of an instruction tier, if the target has it: its feature
/// macro and the macro of its intrinsics header.
pub open spec fn tier_lines(detected: bool, feature: Seq<char>, header: Seq<char>) -> Seq<
    Seq<char>,
> {
    if detected {
        seq![define_flag(feature), define_flag(header)]
    } else {
        Seq::empty()
    }
}

/// The lines of the capability header, in order.
pub open spec fn header_lines(facts: CapabilityFacts) -> Seq<Seq<char>> {
    seq![
        "#ifndef __LIQUID_CONFIG_H__"@,
        "#define __LIQUID_CONFIG_H__"@,
        define_size("SIZEOF_INT"@, facts.sizeof_int as nat),
        define_size("SIZEOF_UNSIGNED_INT"@, facts.sizeof_unsigned_int as nat),
    ] + flag_lines(facts.simd_override, "LIQUID_SIMDOVERRIDE"@) + flag_lines(
        facts.fft_override,
        "LIQUID_FFTOVERRIDE"@,
    ) + tier_lines(facts.have_mmx, "HAVE_MMX"@, "HAVE_MMINTRIN_H"@) + tier_lines(
        facts.have_sse,
        "HAVE_SSE"@,
        "HAVE_XMMINTRIN_H"@,
    ) + tier_lines(facts.have_sse2, "HAVE_SSE2"@, "HAVE_EMMINTRIN_H"@) + tier_lines(
        facts.have_sse3,
        "HAVE_SSE3"@,
        "HAVE_PMMINTRIN_H"@,
    ) + seq!["#endif"@]
}

/// The text of the capability header: its lines, each ended by a newline.
pub open spec fn header_text(facts: CapabilityFacts) -> Seq<char> {
    joined(header_lines(facts))
}

/// Whether the header made for `facts` defines the macro `name` as 1: one
/// of the lines of its text does so.
pub open spec fn defines(facts: CapabilityFacts, name: Seq<char>) -> bool {
    has_line(header_text(facts), define_flag(name))
}

proof fn lemma_is_line_add(a: Seq<char>, b: Seq<char>)
    requires
        is_line(a),
        is_line(b),
    ensures
        is_line(a + b),
{
}

proof fn lemma_define_flag_is_line(name: Seq<char>)
    requires
        is_line(name),
    ensures
        is_line(define_flag(name)),
{
    reveal_strlit("#define ");
    reveal_strlit(" 1");
    lemma_is_line_add("#define "@, name);
    lemma_is_line_add("#define "@ + name, " 1"@);
}

proof fn lemma_define_size_is_line(name: Seq<char>, n: nat)
    requires
        is_line(name),
    ensures
        is_line(define_size(name, n)),
{
    reveal_strlit("#define ");
    reveal_strlit(" (");
    reveal_strlit(")");
    lemma_decimal_digits(n);
    lemma_is_line_add("#define "@, name);
    lemma_is_line_add("#define "@ + name, " ("@);
    lemma_is_line_add("#define "@ + name + " ("@, decimal(n));
    lemma_is_line_add("#define "@ + name + " ("@ + decimal(n), ")"@);
}

proof fn lemma_all_lines_add(x: Seq<Seq<char>>, y: Seq<Seq<char>>)
    requires
        all_lines(x),
        all_lines(y),
    ensures
        all_lines(x + y),
{
    assert forall|i: int| 0 <= i < (x + y).len() implies is_line(#[trigger] (x + y)[i]) by {
        if i < x.len() {
        } else {
        }
    }
}

proof fn lemma_flag_lines_are_lines(active: bool, name: Seq<char>)
    requires
        is_line(name),
    ensures
        all_lines(flag_lines(active, name)),
{
    lemma_define_flag_is_line(name);
}

proof fn lemma_tier_lines_are_lines(detected: bool, feature: Seq<char>, header: Seq<char>)
    requires
        is_line(feature),
        is_line(header),
    ensures
        all_lines(tier_lines(detected, feature, header)),
{
    lemma_define_flag_is_line(feature);
    lemma_define_flag_is_line(header);
}

/// No line of the capability header holds a newline.
pub proof fn lemma_header_lines_are_lines(facts: CapabilityFacts)
    ensures
        all_lines(header_lines(facts)),
{
    reveal_strlit("#ifndef __LIQUID_CONFIG_H__");
    reveal_strlit("#define __LIQUID_CONFIG_H__");
    reveal_strlit("#endif");
    reveal_strlit("SIZEOF_INT");
    reveal_strlit("SIZEOF_UNSIGNED_INT");
    reveal_strlit("LIQUID_SIMDOVERRIDE");
    reveal_strlit("LIQUID_FFTOVERRIDE");
    reveal_strlit("HAVE_MMX");
    reveal_strlit("HAVE_MMINTRIN_H");
    reveal_strlit("HAVE_SSE");
    reveal_strlit("HAVE_XMMINTRIN_H");
    reveal_strlit("HAVE_SSE2");
    reveal_strlit("HAVE_EMMINTRIN_H");
    reveal_strlit("HAVE_SSE3");
    reveal_strlit("HAVE_PMMINTRIN_H");
    let frame = seq![
        "#ifndef __LIQUID_CONFIG_H__"@,
        "#define __LIQUID_CONFIG_H__"@,
        define_size("SIZEOF_INT"@, facts.sizeof_int as nat),
        define_size("SIZEOF_UNSIGNED_INT"@, facts.sizeof_unsigned_int as nat),
    ];
    let simd = flag_lines(facts.simd_override, "LIQUID_SIMDOVERRIDE"@);
    let fft = flag_lines(facts.fft_override, "LIQUID_FFTOVERRIDE"@);
    let mmx = tier_lines(facts.have_mmx, "HAVE_MMX"@, "HAVE_MMINTRIN_H"@);
    let sse = tier_lines(facts.have_sse, "HAVE_SSE"@, "HAVE_XMMINTRIN_H"@);
    let sse2 = tier_lines(facts.have_sse2, "HAVE_SSE2"@, "HAVE_EMMINTRIN_H"@);
    let sse3 = tier_lines(facts.have_sse3, "HAVE_SSE3"@, "HAVE_PMMINTRIN_H"@);
    let end = seq!["#endif"@];
    lemma_define_size_is_line("SIZEOF_INT"@, facts.sizeof_int as nat);
    lemma_define_size_is_line("SIZEOF_UNSIGNED_INT"@, facts.sizeof_unsigned_int as nat);
    lemma_flag_lines_are_lines(facts.simd_override, "LIQUID_SIMDOVERRIDE"@);
    lemma_flag_lines_are_lines(facts.fft_override, "LIQUID_FFTOVERRIDE"@);
    lemma_tier_lines_are_lines(facts.have_mmx, "HAVE_MMX"@, "HAVE_MMINTRIN_H"@);
    lemma_tier_lines_are_lines(facts.have_sse, "HAVE_SSE"@, "HAVE_XMMINTRIN_H"@);
    lemma_tier_lines_are_lines(facts.have_sse2, "HAVE_SSE2"@, "HAVE_EMMINTRIN_H"@);
    lemma_tier_lines_are_lines(facts.have_sse3, "HAVE_SSE3"@, "HAVE_PMMINTRIN_H"@);
    lemma_all_lines_add(frame, simd);
    lemma_all_lines_add(frame + simd, fft);
    lemma_all_lines_add(frame + simd + fft, mmx);
    lemma_all_lines_add(frame + simd + fft + mmx, sse);
    lemma_all_lines_add(frame + simd + fft + mmx + sse, sse2);
    lemma_all_lines_add(frame + simd + fft + mmx + sse + sse2, sse3);
    lemma_all_lines_add(frame + simd + fft + mmx + sse + sse2 + sse3, end);
}

proof fn lemma_contains_add(x: Seq<Seq<char>>, y: Seq<Seq<char>>, line: Seq<char>)
    ensures
        (x + y).contains(line) <==> x.contains(line) || y.contains(line),
{
    if x.contains(line) {
        let i = choose|i: int| 0 <= i < x.len() && x[i] == line;
        assert((x + y)[i] == line);
    }
    if y.contains(line) {
        let i = choose|i: int| 0 <= i < y.len() && y[i] == line;
        assert((x + y)[x.len() + i] == line);
    }
    if (x + y).contains(line) {
        let i = choose|i: int| 0 <= i < (x + y).len() && (x + y)[i] == line;
        if i < x.len() {
        } else {
        }
    }
}

proof fn lemma_define_flag_shape(name: Seq<char>)
    ensures
        define_flag(name).len() == name.len() + 10,
        define_flag(name)[1] == 'd',
        define_flag(name).last() == '1',
        define_flag(name).subrange(8, 8 + name.len() as int) == name,
{
    reveal_strlit("#define ");
    reveal_strlit(" 1");
}

proof fn lemma_define_flag_injective(a: Seq<char>, b: Seq<char>)
    ensures
        define_flag(a) == define_flag(b) <==> a == b,
{
    lemma_define_flag_shape(a);
    lemma_define_flag_shape(b);
}

proof fn lemma_flag_lines_contain(active: bool, name: Seq<char>, wanted: Seq<char>)
    ensures
        flag_lines(active, name).contains(define_flag(wanted)) <==> active && name == wanted,
{
    lemma_define_flag_injective(name, wanted);
    if active {
        assert(flag_lines(active, name)[0] == define_flag(name));
    }
}

proof fn lemma_tier_lines_contain(
    detected: bool,
    feature: Seq<char>,
    header: Seq<char>,
    wanted: Seq<char>,
)
    ensures
        tier_lines(detected, feature, header).contains(define_flag(wanted)) <==> detected && (
        feature == wanted || header == wanted),
{
    lemma_define_flag_injective(feature, wanted);
    lemma_define_flag_injective(header, wanted);
    if detected {
    }
}

proof fn lemma_frame_lines_define_nothing(facts: CapabilityFacts, wanted: Seq<char>)
    ensures
        !seq![
            "#ifndef __LIQUID_CONFIG_H__"@,
            "#define __LIQUID_CONFIG_H__"@,
            define_size("SIZEOF_INT"@, facts.sizeof_int as nat),
            define_size("SIZEOF_UNSIGNED_INT"@, facts.sizeof_unsigned_int as nat),
        ].contains(define_flag(wanted)),
        !seq!["#endif"@].contains(define_flag(wanted)),
{
    lemma_define_flag_shape(wanted);
    reveal_strlit("#ifndef __LIQUID_CONFIG_H__");
    reveal_strlit("#define __LIQUID_CONFIG_H__");
    reveal_strlit("#endif");
    reveal_strlit(")");
    let size_int = define_size("SIZEOF_INT"@, facts.sizeof_int as nat);
    let size_unsigned = define_size("SIZEOF_UNSIGNED_INT"@, facts.sizeof_unsigned_int as nat);
    assert(size_int.last() == ')');
    assert(size_unsigned.last() == ')');
    assert("#define __LIQUID_CONFIG_H__"@.last() == '_');
    assert("#ifndef __LIQUID_CONFIG_H__"@[1] == 'i');
    assert("#endif"@[1] == 'e');
}

/// Which macros the header made for `facts` defines as 1, for each name
/// `wanted`: the override macros of the active overrides, the feature and
/// intrinsics-header macros of the detected tiers, and no others.
pub proof fn lemma_defined_macros(facts: CapabilityFacts, wanted: Seq<char>)
    ensures
        defines(facts, wanted) <==> (
            (facts.simd_override && wanted == "LIQUID_SIMDOVERRIDE"@)
            || (facts.fft_override && wanted == "LIQUID_FFTOVERRIDE"@)
            || (facts.have_mmx && (wanted == "HAVE_MMX"@ || wanted == "HAVE_MMINTRIN_H"@))
            || (facts.have_sse && (wanted == "HAVE_SSE"@ || wanted == "HAVE_XMMINTRIN_H"@))
            || (facts.have_sse2 && (wanted == "HAVE_SSE2"@ || wanted == "HAVE_EMMINTRIN_H"@))
            || (facts.have_sse3 && (wanted == "HAVE_SSE3"@ || wanted == "HAVE_PMMINTRIN_H"@))
        ),
{
    let line = define_flag(wanted);
    lemma_header_lines_are_lines(facts);
    lemma_lines_of_joined(header_lines(facts), line);
    let frame = seq![
        "#ifndef __LIQUID_CONFIG_H__"@,
        "#define __LIQUID_CONFIG_H__"@,
        define_size("SIZEOF_INT"@, facts.sizeof_int as nat),
        define_size("SIZEOF_UNSIGNED_INT"@, facts.sizeof_unsigned_int as nat),
    ];
    let simd = flag_lines(facts.simd_override, "LIQUID_SIMDOVERRIDE"@);
    let fft = flag_lines(facts.fft_override, "LIQUID_FFTOVERRIDE"@);
    let mmx = tier_lines(facts.have_mmx, "HAVE_MMX"@, "HAVE_MMINTRIN_H"@);
    let sse = tier_lines(facts.have_sse, "HAVE_SSE"@, "HAVE_XMMINTRIN_H"@);
    let sse2 = tier_lines(facts.have_sse2, "HAVE_SSE2"@, "HAVE_EMMINTRIN_H"@);
    let sse3 = tier_lines(facts.have_sse3, "HAVE_SSE3"@, "HAVE_PMMINTRIN_H"@);
    let end = seq!["#endif"@];
    lemma_frame_lines_define_nothing(facts, wanted);
    lemma_flag_lines_contain(facts.simd_override, "LIQUID_SIMDOVERRIDE"@, wanted);
    lemma_flag_lines_contain(facts.fft_override, "LIQUID_FFTOVERRIDE"@, wanted);
    lemma_tier_lines_contain(facts.have_mmx, "HAVE_MMX"@, "HAVE_MMINTRIN_H"@, wanted);
    lemma_tier_lines_contain(facts.have_sse, "HAVE_SSE"@, "HAVE_XMMINTRIN_H"@, wanted);
    lemma_tier_lines_contain(facts.have_sse2, "HAVE_SSE2"@, "HAVE_EMMINTRIN_H"@, wanted);
    lemma_tier_lines_contain(facts.have_sse3, "HAVE_SSE3"@, "HAVE_PMMINTRIN_H"@, wanted);
    lemma_contains_add(frame, simd, line);
    lemma_contains_add(frame + simd, fft, line);
    lemma_contains_add(frame + simd + fft, mmx, line);
    lemma_contains_add(frame + simd + fft + mmx, sse, line);
    lemma_contains_add(frame + simd + fft + mmx + sse, sse2, line);
    lemma_contains_add(frame + simd + fft + mmx + sse + sse2, sse3, line);
    lemma_contains_add(frame + simd + fft + mmx + sse + sse2 + sse3, end, line);
}

proof fn lemma_macro_names_differ()
    ensures
        "LIQUID_SIMDOVERRIDE"@ != "LIQUID_FFTOVERRIDE"@,
        "HAVE_MMX"@ != "HAVE_SSE"@,
        "HAVE_MMX"@ != "HAVE_XMMINTRIN_H"@,
        "HAVE_MMX"@ != "HAVE_SSE2"@,
        "HAVE_MMX"@ != "HAVE_EMMINTRIN_H"@,
        "HAVE_MMX"@ != "HAVE_SSE3"@,
        "HAVE_MMX"@ != "HAVE_PMMINTRIN_H"@,
        "HAVE_MMINTRIN_H"@ != "HAVE_SSE"@,
        "HAVE_MMINTRIN_H"@ != "HAVE_XMMINTRIN_H"@,
        "HAVE_MMINTRIN_H"@ != "HAVE_SSE2"@,
        "HAVE_MMINTRIN_H"@ != "HAVE_EMMINTRIN_H"@,
        "HAVE_MMINTRIN_H"@ != "HAVE_SSE3"@,
        "HAVE_MMINTRIN_H"@ != "HAVE_PMMINTRIN_H"@,
        "HAVE_SSE"@ != "HAVE_SSE2"@,
        "HAVE_SSE"@ != "HAVE_EMMINTRIN_H"@,
        "HAVE_SSE"@ != "HAVE_SSE3"@,
        "HAVE_SSE"@ != "HAVE_PMMINTRIN_H"@,
        "HAVE_XMMINTRIN_H"@ != "HAVE_SSE2"@,
        "HAVE_XMMINTRIN_H"@ != "HAVE_EMMINTRIN_H"@,
        "HAVE_XMMINTRIN_H"@ != "HAVE_SSE3"@,
        "HAVE_XMMINTRIN_H"@ != "HAVE_PMMINTRIN_H"@,
        "HAVE_SSE2"@ != "HAVE_SSE3"@,
        "HAVE_SSE2"@ != "HAVE_PMMINTRIN_H"@,
        "HAVE_EMMINTRIN_H"@ != "HAVE_SSE3"@,
        "HAVE_EMMINTRIN_H"@ != "HAVE_PMMINTRIN_H"@,
        "LIQUID_SIMDOVERRIDE"@.len() == 19,
        "LIQUID_FFTOVERRIDE"@.len() == 18,
        "HAVE_MMX"@.len() == 8,
        "HAVE_SSE"@.len() == 8,
        "HAVE_SSE2"@.len() == 9,
        "HAVE_SSE3"@.len() == 9,
        "HAVE_MMINTRIN_H"@.len() == 15,
        "HAVE_XMMINTRIN_H"@.len() == 16,
        "HAVE_EMMINTRIN_H"@.len() == 16,
        "HAVE_PMMINTRIN_H"@.len() == 16,
{
    reveal_strlit("LIQUID_SIMDOVERRIDE");
    reveal_strlit("LIQUID_FFTOVERRIDE");
    reveal_strlit("HAVE_MMX");
    reveal_strlit("HAVE_MMINTRIN_H");
    reveal_strlit("HAVE_SSE");
    reveal_strlit("HAVE_XMMINTRIN_H");
    reveal_strlit("HAVE_SSE2");
    reveal_strlit("HAVE_EMMINTRIN_H");
    reveal_strlit("HAVE_SSE3");
    reveal_strlit("HAVE_PMMINTRIN_H");
    assert("LIQUID_SIMDOVERRIDE"@.len() != "LIQUID_FFTOVERRIDE"@.len());
    assert("HAVE_SSE"@.len() != "HAVE_SSE3"@.len());
    assert("HAVE_MMX"@[5] != "HAVE_SSE"@[5]);
    assert("HAVE_SSE2"@[8] != "HAVE_SSE3"@[8]);
    assert("HAVE_XMMINTRIN_H"@[5] != "HAVE_PMMINTRIN_H"@[5]);
    assert("HAVE_EMMINTRIN_H"@[5] != "HAVE_PMMINTRIN_H"@[5]);
}

/// An override macro is defined in the header exactly when its override is
/// active.
pub proof fn lemma_override_macros(facts: CapabilityFacts)
    ensures
        defines(facts, "LIQUID_SIMDOVERRIDE"@) <==> facts.simd_override,
        defines(facts, "LIQUID_FFTOVERRIDE"@) <==> facts.fft_override,
{
    lemma_macro_names_differ();
    lemma_defined_macros(facts, "LIQUID_SIMDOVERRIDE"@);
    lemma_defined_macros(facts, "LIQUID_FFTOVERRIDE"@);
}

/// The feature macro of an instruction tier and the macro of its intrinsics
/// header are defined together or not at all: both exactly when the target
/// has the tier.
pub proof fn lemma_tier_macros_paired(facts: CapabilityFacts)
    ensures
        defines(facts, "HAVE_MMX"@) <==> facts.have_mmx,
        defines(facts, "HAVE_MMINTRIN_H"@) <==> facts.have_mmx,
        defines(facts, "HAVE_SSE"@) <==> facts.have_sse,
        defines(facts, "HAVE_XMMINTRIN_H"@) <==> facts.have_sse,
        defines(facts, "HAVE_SSE2"@) <==> facts.have_sse2,
        defines(facts, "HAVE_EMMINTRIN_H"@) <==> facts.have_sse2,
        defines(facts, "HAVE_SSE3"@) <==> facts.have_sse3,
        defines(facts, "HAVE_PMMINTRIN_H"@) <==> facts.have_sse3,
{
    lemma_macro_names_differ();
    lemma_defined_macros(facts, "HAVE_MMX"@);
    lemma_defined_macros(facts, "HAVE_MMINTRIN_H"@);
    lemma_defined_macros(facts, "HAVE_SSE"@);
    lemma_defined_macros(facts, "HAVE_XMMINTRIN_H"@);
    lemma_defined_macros(facts, "HAVE_SSE2"@);
    lemma_defined_macros(facts, "HAVE_EMMINTRIN_H"@);
    lemma_defined_macros(facts, "HAVE_SSE3"@);
    lemma_defined_macros(facts, "HAVE_PMMINTRIN_H"@);
}

fn push_line(lines: &mut Vec<String>, line: String)
    ensures
        views(final(lines)@) == views(old(lines)@).push(line@),
{
    lines.push(line);
}

fn push_size(lines: &mut Vec<String>, name: &str, n: usize)
    ensures
        views(final(lines)@) == views(old(lines)@).push(define_size(name@, n as nat)),
{
    let mut line = String::from_str("#define ");
    line.append(name);
    line.append(" (");
    push_decimal(&mut line, n);
    line.append(")");
    push_line(lines, line);
}

fn define_if(lines: &mut Vec<String>, name: &str, active: bool)
    ensures
        views(final(lines)@) == views(old(lines)@) + flag_lines(active, name@),
{
    if active {
        let mut line = String::from_str("#define ");
        line.append(name);
        line.append(" 1");
        push_line(lines, line);
    }
}

fn define_sse(lines: &mut Vec<String>, feature: &str, header: &str, detected: bool)
    ensures
        views(final(lines)@) == views(old(lines)@) + tier_lines(detected, feature@, header@),
{
    define_if(lines, feature, detected);
    define_if(lines, header, detected);
}

/// The lines of the capability header for `facts`.
pub fn config_lines(facts: &CapabilityFacts) -> (lines: Vec<String>)
    ensures
        views(lines@) == header_lines(*facts),
{
    let mut lines: Vec<String> = Vec::new();
    push_line(&mut lines, String::from_str("#ifndef __LIQUID_CONFIG_H__"));
    push_line(&mut lines, String::from_str("#define __LIQUID_CONFIG_H__"));
    push_size(&mut lines, "SIZEOF_INT", facts.sizeof_int);
    push_size(&mut lines, "SIZEOF_UNSIGNED_INT", facts.sizeof_unsigned_int);
    define_if(&mut lines, "LIQUID_SIMDOVERRIDE", facts.simd_override);
    define_if(&mut lines, "LIQUID_FFTOVERRIDE", facts.fft_override);
    define_sse(&mut lines, "HAVE_MMX", "HAVE_MMINTRIN_H", facts.have_mmx);
    define_sse(&mut lines, "HAVE_SSE", "HAVE_XMMINTRIN_H", facts.have_sse);
    define_sse(&mut lines, "HAVE_SSE2", "HAVE_EMMINTRIN_H", facts.have_sse2);
    define_sse(&mut lines, "HAVE_SSE3", "HAVE_PMMINTRIN_H", facts.have_sse3);
    let ghost body = views(lines@);
    push_line(&mut lines, String::from_str("#endif"));
    lines
}

/// The text of the capability header for `facts`: its lines, each ended by
/// a newline.
pub fn create_config_h(facts: &CapabilityFacts) -> (header: String)
    ensures
        header@ == header_text(*facts),
{
    let lines = config_lines(facts);
    join_lines(&lines)
}

} // verus!
