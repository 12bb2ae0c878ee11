use rust_liquid_dsp::config::{config_lines, create_config_h, CapabilityFacts};
use rust_liquid_dsp::kernel::{select_variant, DotprodVariant};
use rust_liquid_dsp::plan::{build_steps, Step};
use rust_liquid_dsp::rules::{get_modules_to_compile, join, MakeRules, Module};
use rust_liquid_dsp::table::StringMap;
use rust_liquid_dsp::text::{join_lines, push_decimal};

fn facts() -> CapabilityFacts {
    CapabilityFacts {
        sizeof_int: 4,
        sizeof_unsigned_int: 4,
        simd_override: false,
        fft_override: false,
        have_mmx: false,
        have_sse: false,
        have_sse2: false,
        have_sse3: false,
    }
}

fn module(name: &str, files: &[&str], include_dirs: &[&str]) -> Module {
    Module {
        name: name.to_string(),
        files: files.iter().map(|f| f.to_string()).collect(),
        include_dirs: include_dirs.iter().map(|d| d.to_string()).collect(),
    }
}

fn rules(with_sse: bool) -> MakeRules {
    let mut dotprod = StringMap::new();
    dotprod = dotprod.insert(
        "portable".to_string(),
        module("dotprod", &["src/dotprod/src/dotprod_rrrf.c"], &[]),
    );
    if with_sse {
        dotprod = dotprod.insert(
            "sse".to_string(),
            module("dotprod", &["src/dotprod/src/dotprod_rrrf.mmx.c"], &[]),
        );
    }
    MakeRules {
        modules: vec![
            module("buffer", &["src/buffer/src/bufferf.c", "src/buffer/src/buffercf.c"], &[]),
            module("fft", &["src/fft/src/fftf.c"], &["src/fft/src"]),
            module("filter", &["src/filter/src/filter_rrrf.c"], &["src/filter/include"]),
            module("math", &["src/math/src/math.c"], &[]),
        ],
        dotprod,
    }
}

#[test]
fn header_of_a_plain_target() {
    assert_eq!(
        create_config_h(&facts()),
        "#ifndef __LIQUID_CONFIG_H__\n\
         #define __LIQUID_CONFIG_H__\n\
         #define SIZEOF_INT (4)\n\
         #define SIZEOF_UNSIGNED_INT (4)\n\
         #endif\n"
    );
}

#[test]
fn header_of_a_full_target() {
    let all = CapabilityFacts {
        sizeof_int: 2,
        sizeof_unsigned_int: 16,
        simd_override: true,
        fft_override: true,
        have_mmx: true,
        have_sse: true,
        have_sse2: true,
        have_sse3: true,
    };
    assert_eq!(
        create_config_h(&all),
        "#ifndef __LIQUID_CONFIG_H__\n\
         #define __LIQUID_CONFIG_H__\n\
         #define SIZEOF_INT (2)\n\
         #define SIZEOF_UNSIGNED_INT (16)\n\
         #define LIQUID_SIMDOVERRIDE 1\n\
         #define LIQUID_FFTOVERRIDE 1\n\
         #define HAVE_MMX 1\n\
         #define HAVE_MMINTRIN_H 1\n\
         #define HAVE_SSE 1\n\
         #define HAVE_XMMINTRIN_H 1\n\
         #define HAVE_SSE2 1\n\
         #define HAVE_EMMINTRIN_H 1\n\
         #define HAVE_SSE3 1\n\
         #define HAVE_PMMINTRIN_H 1\n\
         #endif\n"
    );
}

#[test]
fn override_switch_defines_its_macro() {
    let simd = CapabilityFacts { simd_override: true, ..facts() };
    let lines = config_lines(&simd);
    assert!(lines.contains(&"#define LIQUID_SIMDOVERRIDE 1".to_string()));
    assert!(!lines.contains(&"#define LIQUID_FFTOVERRIDE 1".to_string()));
    let fft = CapabilityFacts { fft_override: true, ..facts() };
    let lines = config_lines(&fft);
    assert!(!lines.contains(&"#define LIQUID_SIMDOVERRIDE 1".to_string()));
    assert!(lines.contains(&"#define LIQUID_FFTOVERRIDE 1".to_string()));
    let none = config_lines(&facts());
    assert!(!none.contains(&"#define LIQUID_SIMDOVERRIDE 1".to_string()));
    assert!(!none.contains(&"#define LIQUID_FFTOVERRIDE 1".to_string()));
}

#[test]
fn tier_macros_come_in_pairs() {
    let pairs = [
        ("#define HAVE_MMX 1", "#define HAVE_MMINTRIN_H 1"),
        ("#define HAVE_SSE 1", "#define HAVE_XMMINTRIN_H 1"),
        ("#define HAVE_SSE2 1", "#define HAVE_EMMINTRIN_H 1"),
        ("#define HAVE_SSE3 1", "#define HAVE_PMMINTRIN_H 1"),
    ];
    for bits in 0..16u32 {
        let detected = [bits & 1 != 0, bits & 2 != 0, bits & 4 != 0, bits & 8 != 0];
        let target = CapabilityFacts {
            have_mmx: detected[0],
            have_sse: detected[1],
            have_sse2: detected[2],
            have_sse3: detected[3],
            ..facts()
        };
        let lines = config_lines(&target);
        for (tier, (feature, header)) in pairs.iter().enumerate() {
            assert_eq!(lines.contains(&feature.to_string()), detected[tier]);
            assert_eq!(lines.contains(&header.to_string()), detected[tier]);
        }
        assert_eq!(lines.len(), 5 + 2 * bits.count_ones() as usize);
        assert_eq!(create_config_h(&target), join_lines(&lines));
    }
}

#[test]
fn header_sizes_are_decimal() {
    let wide = CapabilityFacts { sizeof_int: 8, sizeof_unsigned_int: 1030, ..facts() };
    let lines = config_lines(&wide);
    assert_eq!(lines[2], "#define SIZEOF_INT (8)");
    assert_eq!(lines[3], "#define SIZEOF_UNSIGNED_INT (1030)");
}

#[test]
fn decimal_numerals() {
    for (n, numeral) in [(0usize, "0"), (7, "7"), (10, "10"), (99, "99"), (100, "100"), (4294967295, "4294967295")] {
        let mut text = String::from("n=");
        push_decimal(&mut text, n);
        assert_eq!(text, format!("n={}", numeral));
    }
    let mut text = String::new();
    push_decimal(&mut text, usize::MAX);
    assert_eq!(text, format!("{}", usize::MAX));
}

#[test]
fn lines_are_joined_with_newlines() {
    assert_eq!(join_lines(&vec![]), "");
    assert_eq!(join_lines(&vec!["a".to_string()]), "a\n");
    assert_eq!(join_lines(&vec!["a".to_string(), "".to_string(), "bc".to_string()]), "a\n\nbc\n");
}

#[test]
fn portable_kernel_without_sse() {
    assert_eq!(select_variant(false, false), DotprodVariant::Portable);
}

#[test]
fn sse_kernel_with_sse() {
    assert_eq!(select_variant(false, true), DotprodVariant::Sse);
}

#[test]
fn portable_kernel_under_override() {
    assert_eq!(select_variant(true, true), DotprodVariant::Portable);
    assert_eq!(select_variant(true, false), DotprodVariant::Portable);
}

#[test]
fn variant_keys() {
    assert_eq!(DotprodVariant::Portable.key(), "portable");
    assert_eq!(DotprodVariant::Sse.key(), "sse");
}

#[test]
fn string_map_keeps_the_last_value() {
    let table = StringMap::new();
    assert!(!table.contains_key("a"));
    assert_eq!(table.get("a"), None);
    let table = table.insert("a".to_string(), 1);
    let table = table.insert("b".to_string(), 2);
    assert_eq!(table.get("a"), Some(&1));
    assert_eq!(table.get("b"), Some(&2));
    assert_eq!(table.get("c"), None);
    assert_eq!(table.get(""), None);
    let table = table.insert("a".to_string(), 3);
    assert_eq!(table.get("a"), Some(&3));
    assert_eq!(table.get("b"), Some(&2));
    assert!(table.contains_key("a"));
    assert!(table.contains_key("b"));
    assert!(!table.contains_key("ab"));
}

#[test]
fn required_modules_are_always_enabled() {
    for filter in [false, true] {
        let modules = get_modules_to_compile(filter);
        for name in ["buffer", "dotprod", "math", "utility"] {
            assert_eq!(modules.get(name), Some(&true));
        }
        assert_eq!(modules.get("filter"), Some(&filter));
        assert_eq!(modules.get("fft"), None);
        assert!(modules.contains_key("filter"));
        assert!(!modules.contains_key("fft"));
    }
}

#[test]
fn paths_are_joined_with_a_slash() {
    assert_eq!(join("out", "include"), "out/include");
    assert_eq!(join("./liquid-dsp", "src/math/src/math.c"), "./liquid-dsp/src/math/src/math.c");
    assert_eq!(join("", ""), "/");
}

#[test]
fn module_compiles_with_resolved_paths() {
    let plan = module(
        "filter",
        &["src/filter/src/a.c", "src/filter/src/b.c"],
        &["src/filter/include", "src/math"],
    )
    .compile("/tmp/out/include");
    assert_eq!(plan.output, "filter");
    assert_eq!(
        plan.files,
        vec!["./liquid-dsp/src/filter/src/a.c", "./liquid-dsp/src/filter/src/b.c"]
    );
    assert_eq!(
        plan.includes,
        vec![
            "/tmp/out/include",
            "./liquid-dsp/include",
            "./liquid-dsp/src/filter/include",
            "./liquid-dsp/src/math",
        ]
    );
    assert!(!plan.warnings);
    assert_eq!(plan.flags, vec!["-Wno-format-extra-args"]);
}

#[test]
fn module_without_files_compiles_to_an_empty_plan() {
    let plan = module("empty", &[], &[]).compile("cfg");
    assert_eq!(plan.output, "empty");
    assert!(plan.files.is_empty());
    assert_eq!(plan.includes, vec!["cfg", "./liquid-dsp/include"]);
}

#[test]
fn rules_find_their_variants() {
    let both = rules(true);
    assert!(both.is_well_formed());
    assert_eq!(both.variant(DotprodVariant::Sse).unwrap().files, vec!["src/dotprod/src/dotprod_rrrf.mmx.c"]);
    assert_eq!(both.select_dotprod(false, true).files, vec!["src/dotprod/src/dotprod_rrrf.mmx.c"]);
    assert_eq!(both.select_dotprod(true, true).files, vec!["src/dotprod/src/dotprod_rrrf.c"]);
    assert_eq!(both.select_dotprod(false, false).files, vec!["src/dotprod/src/dotprod_rrrf.c"]);
    let portable = rules(false);
    assert!(portable.is_well_formed());
    assert!(portable.variant(DotprodVariant::Sse).is_none());
    assert!(portable.variant(DotprodVariant::Portable).is_some());
    let none = MakeRules { modules: vec![], dotprod: StringMap::new() };
    assert!(!none.is_well_formed());
    assert!(none.variant(DotprodVariant::Portable).is_none());
}

fn compiled(step: &Step) -> Option<(&str, &str)> {
    match step {
        Step::Compile { plan } => Some((plan.output.as_str(), plan.files[0].as_str())),
        _ => None,
    }
}

#[test]
fn build_runs_its_steps_in_order() {
    let target = CapabilityFacts { have_sse: true, have_sse2: true, ..facts() };
    let steps = build_steps("out", &target, &rules(true), &get_modules_to_compile(true));
    assert_eq!(steps.len(), 7);
    match &steps[0] {
        Step::CreateDir { path } => assert_eq!(path, "out/include"),
        other => panic!("{:?}", other),
    }
    match &steps[1] {
        Step::WriteFile { path, text } => {
            assert_eq!(path, "out/include/config.h");
            assert_eq!(text, &create_config_h(&target));
        }
        other => panic!("{:?}", other),
    }
    assert_eq!(compiled(&steps[2]), Some(("buffer", "./liquid-dsp/src/buffer/src/bufferf.c")));
    assert_eq!(compiled(&steps[3]), Some(("filter", "./liquid-dsp/src/filter/src/filter_rrrf.c")));
    assert_eq!(compiled(&steps[4]), Some(("math", "./liquid-dsp/src/math/src/math.c")));
    assert_eq!(
        compiled(&steps[5]),
        Some(("dotprod", "./liquid-dsp/src/dotprod/src/dotprod_rrrf.mmx.c"))
    );
    match &steps[3] {
        Step::Compile { plan } => assert_eq!(
            plan.includes,
            vec!["out/include", "./liquid-dsp/include", "./liquid-dsp/src/filter/include"]
        ),
        other => panic!("{:?}", other),
    }
    match &steps[6] {
        Step::GenerateBindings { header, allowlist, comments, output } => {
            assert_eq!(header, "./liquid-dsp/include/liquid.h");
            assert_eq!(allowlist, "msresamp_rrrf.*");
            assert!(*comments);
            assert_eq!(output, "out/bindings.rs");
        }
        other => panic!("{:?}", other),
    }
}

#[test]
fn build_compiles_one_kernel() {
    for (simd_override, have_sse, file) in [
        (false, false, "./liquid-dsp/src/dotprod/src/dotprod_rrrf.c"),
        (false, true, "./liquid-dsp/src/dotprod/src/dotprod_rrrf.mmx.c"),
        (true, false, "./liquid-dsp/src/dotprod/src/dotprod_rrrf.c"),
        (true, true, "./liquid-dsp/src/dotprod/src/dotprod_rrrf.c"),
    ] {
        let target = CapabilityFacts { simd_override, have_sse, ..facts() };
        let steps = build_steps("o", &target, &rules(true), &StringMap::new());
        assert_eq!(steps.len(), 4);
        let kernels: Vec<_> = steps.iter().filter_map(compiled).collect();
        assert_eq!(kernels, vec![("dotprod", file)]);
    }
}

#[test]
fn build_compiles_a_listed_module_whatever_its_switch() {
    let steps = build_steps("o", &facts(), &rules(false), &get_modules_to_compile(false));
    let names: Vec<_> = steps.iter().filter_map(compiled).map(|(name, _)| name).collect();
    assert_eq!(names, vec!["buffer", "filter", "math", "dotprod"]);
}
