//! The order of a build: the capability header first, then the enabled
//! modules, then the one dot-product kernel, then the bindings.
//!
//! Nothing is done here. A build is a list of steps, and whoever runs them
//! stops at the first step that fails.

use vstd::prelude::*;
use crate::config::{create_config_h, header_text, CapabilityFacts};
use crate::kernel::selected_variant;
use crate::rules::{child, compile_plan, join, CompilePlan, CompilePlanView, MakeRules, Module};
use crate::table::StringMap;

verus! {

/// One step of a build.
#[derive(Debug)]
pub enum Step {
    /// Create a directory, and its parents where they are missing.
    CreateDir { path: String },
    /// Write a text file, in place of what was there.
    WriteFile { path: String, text: String },
    /// Compile one module into a static library.
    Compile { plan: CompilePlan },
    /// Generate declarations for the functions of `header` whose names match
    /// `allowlist`, and write them to `output`.
    GenerateBindings { header: String, allowlist: String, comments: bool, output: String },
}

/// A step as plain text.
pub enum StepView {
    CreateDir { path: Seq<char> },
    WriteFile { path: Seq<char>, text: Seq<char> },
    Compile { plan: CompilePlanView },
    GenerateBindings {
        header: Seq<char>,
        allowlist: Seq<char>,
        comments: bool,
        output: Seq<char>,
    },
}

impl View for Step {
    type V = StepView;

    open spec fn view(&self) -> StepView {
        match self {
            Step::CreateDir { path } => StepView::CreateDir { path: path@ },
            Step::WriteFile { path, text } => StepView::WriteFile { path: path@, text: text@ },
            Step::Compile { plan } => StepView::Compile { plan: plan@ },
            Step::GenerateBindings { header, allowlist, comments, output } => {
                StepView::GenerateBindings {
                    header: header@,
                    allowlist: allowlist@,
                    comments: *comments,
                    output: output@,
                }
            },
        }
    }
}

/// The views of a list of steps.
pub open spec fn step_views(steps: Seq<Step>) -> Seq<StepView> {
    steps.map_values(|step: Step| step@)
}

/// The directory of the capability header, below the output directory.
pub open spec fn config_dir(out_dir: Seq<char>) -> Seq<char> {
    child(out_dir, "include"@)
}

/// The compile steps of the modules that the enabled-module set names, in
/// the order of the make rules.
pub open spec fn module_steps(
    modules: Seq<Module>,
    enabled: Map<Seq<char>, bool>,
    config_dir: Seq<char>,
) -> Seq<StepView>
    decreases modules.len(),
{
    if modules.len() == 0 {
        Seq::empty()
    } else {
        let earlier = module_steps(modules.drop_last(), enabled, config_dir);
        if enabled.dom().contains(modules.last().name@) {
            earlier.push(StepView::Compile { plan: compile_plan(modules.last()@, config_dir) })
        } else {
            earlier
        }
    }
}

/// The steps of a whole build, in order.
pub open spec fn build(
    out_dir: Seq<char>,
    facts: CapabilityFacts,
    rules: MakeRules,
    enabled: Map<Seq<char>, bool>,
) -> Seq<StepView> {
    let dir = config_dir(out_dir);
    let kernel = rules.dotprod@[selected_variant(facts.simd_override, facts.have_sse).spec_key()];
    seq![
        StepView::CreateDir { path: dir },
        StepView::WriteFile { path: child(dir, "config.h"@), text: header_text(facts) },
    ] + module_steps(rules.modules@, enabled, dir) + seq![
        StepView::Compile { plan: compile_plan(kernel@, dir) },
        StepView::GenerateBindings {
            header: "./liquid-dsp/include/liquid.h"@,
            allowlist: "msresamp_rrrf.*"@,
            comments: true,
            output: child(out_dir, "bindings.rs"@),
        },
    ]
}

fn push_step(steps: &mut Vec<Step>, step: Step)
    ensures
        step_views(final(steps)@) == step_views(old(steps)@).push(step@),
{
    steps.push(step);
}

/// Plans a build into `out_dir`.
///
/// Exactly one dot-product kernel is compiled, after the other modules: the
/// variant selected for the override switch and the target of `facts`. The
/// rules must hold that variant.
pub fn build_steps(
    out_dir: &str,
    facts: &CapabilityFacts,
    rules: &MakeRules,
    enabled: &StringMap<bool>,
) -> (steps: Vec<Step>)
    requires
        rules.has_variant(selected_variant(facts.simd_override, facts.have_sse)),
    ensures
        step_views(steps@) == build(out_dir@, *facts, *rules, enabled@),
{
    let dir = join(out_dir, "include");
    let mut steps: Vec<Step> = Vec::new();
    push_step(&mut steps, Step::CreateDir { path: dir.clone() });
    push_step(
        &mut steps,
        Step::WriteFile { path: join(dir.as_str(), "config.h"), text: create_config_h(facts) },
    );
    let ghost head = step_views(steps@);
    let mut i: usize = 0;
    while i < rules.modules.len()
        invariant
            i <= rules.modules.len(),
            step_views(steps@) == head + module_steps(
                rules.modules@.take(i as int),
                enabled@,
                dir@,
            ),
        decreases rules.modules.len() - i,
    {
        let module = &rules.modules[i];
        proof {
            let upto = rules.modules@.take(i + 1);
            assert(upto.drop_last() == rules.modules@.take(i as int));
        }
        if enabled.contains_key(module.name.as_str()) {
            push_step(&mut steps, Step::Compile { plan: module.compile(dir.as_str()) });
        }
        i += 1;
    }
    assert(rules.modules@.take(i as int) == rules.modules@);
    let kernel = rules.select_dotprod(facts.simd_override, facts.have_sse);
    push_step(&mut steps, Step::Compile { plan: kernel.compile(dir.as_str()) });
    push_step(
        &mut steps,
        Step::GenerateBindings {
            header: String::from_str("./liquid-dsp/include/liquid.h"),
            allowlist: String::from_str("msresamp_rrrf.*"),
            comments: true,
            output: join(out_dir, "bindings.rs"),
        },
    );
    steps
}

} // verus!
