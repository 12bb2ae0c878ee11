//! The make rules of the native library: which source files make up which
//! module, and how a module is handed to the C compiler.

use vstd::prelude::*;
use crate::kernel::{select_variant, selected_variant, DotprodVariant};
use crate::table::StringMap;
use crate::text::views;

verus! {

/// A unit of the native library that is compiled into one static library.
#[derive(Debug)]
pub struct Module {
    /// The name of the module, and of the library made of it.
    pub name: String,
    /// The source files, relative to the root of the native sources.
    pub files: Vec<String>,
    /// Further include directories, relative to the same root.
    pub include_dirs: Vec<String>,
}

/// A module as plain text.
pub struct ModuleView {
    pub name: Seq<char>,
    pub files: Seq<Seq<char>>,
    pub include_dirs: Seq<Seq<char>>,
}

impl View for Module {
    type V = ModuleView;

    open spec fn view(&self) -> ModuleView {
        ModuleView {
            name: self.name@,
            files: views(self.files@),
            include_dirs: views(self.include_dirs@),
        }
    }
}

/// One invocation of the C compiler.
#[derive(Debug)]
pub struct CompilePlan {
    /// The name of the static library to produce.
    pub output: String,
    /// The source files to compile.
    pub files: Vec<String>,
    /// The include directories, in search order.
    pub includes: Vec<String>,
    /// Whether the compiler may print warnings.
    pub warnings: bool,
    /// Further flags for the compiler.
    pub flags: Vec<String>,
}

/// An invocation of the C compiler as plain text.
pub struct CompilePlanView {
    pub output: Seq<char>,
    pub files: Seq<Seq<char>>,
    pub includes: Seq<Seq<char>>,
    pub warnings: bool,
    pub flags: Seq<Seq<char>>,
}

impl View for CompilePlan {
    type V = CompilePlanView;

    open spec fn view(&self) -> CompilePlanView {
        CompilePlanView {
            output: self.output@,
            files: views(self.files@),
            includes: views(self.includes@),
            warnings: self.warnings,
            flags: views(self.flags@),
        }
    }
}

/// The path of the entry `name` of the directory `dir`.
pub open spec fn child(dir: Seq<char>, name: Seq<char>) -> Seq<char> {
    dir + "/"@ + name
}

/// A path of the make rules, resolved against the root of the native
/// sources.
pub open spec fn resolved(path: Seq<char>) -> Seq<char> {
    child("./liquid-dsp"@, path)
}

/// Each path of a list, resolved.
pub open spec fn resolved_all(paths: Seq<Seq<char>>) -> Seq<Seq<char>> {
    paths.map_values(|path: Seq<char>| resolved(path))
}

/// How a module is compiled, given the directory of the capability header.
///
/// All its files go into one library named after the module. The directory
/// of the capability header is searched first, then the public headers of
/// the native library, then the module's own include directories. Warnings
/// are off.
pub open spec fn compile_plan(module: ModuleView, config_dir: Seq<char>) -> CompilePlanView {
    CompilePlanView {
        output: module.name,
        files: resolved_all(module.files),
        includes: seq![config_dir, "./liquid-dsp/include"@] + resolved_all(module.include_dirs),
        warnings: false,
        flags: seq!["-Wno-format-extra-args"@],
    }
}

/// The path of the entry `name` of the directory `dir`.
pub fn join(dir: &str, name: &str) -> (path: String)
    ensures
        path@ == child(dir@, name@),
{
    let mut path = String::from_str(dir);
    path.append("/");
    path.append(name);
    path
}

fn push_resolved(target: &mut Vec<String>, paths: &Vec<String>)
    ensures
        views(final(target)@) == views(old(target)@) + resolved_all(views(paths@)),
{
    let mut i: usize = 0;
    while i < paths.len()
        invariant
            i <= paths.len(),
            views(target@) == views(old(target)@) + resolved_all(views(paths@.take(i as int))),
        decreases paths.len() - i,
    {
        let path = join("./liquid-dsp", paths[i].as_str());
        let ghost before = views(target@);
        target.push(path);
        assert(views(target@) =~= before.push(path@));
        i += 1;
    }
}

impl Module {
    /// The invocation of the C compiler that builds this module, with the
    /// capability header in `config_dir`.
    pub fn compile(&self, config_dir: &str) -> (plan: CompilePlan)
        ensures
            plan@ == compile_plan(self@, config_dir@),
    {
        let mut files: Vec<String> = Vec::new();
        push_resolved(&mut files, &self.files);
        let mut includes: Vec<String> = Vec::new();
        includes.push(String::from_str(config_dir));
        includes.push(String::from_str("./liquid-dsp/include"));
        assert(views(includes@) =~= seq![config_dir@, "./liquid-dsp/include"@]);
        push_resolved(&mut includes, &self.include_dirs);
        let mut flags: Vec<String> = Vec::new();
        flags.push(String::from_str("-Wno-format-extra-args"));
        assert(views(flags@) =~= seq!["-Wno-format-extra-args"@]);
        CompilePlan { output: self.name.clone(), files, includes, warnings: false, flags }
    }
}

/// The make rules: the modules of the native library, and the variants of
/// its dot-product kernel by their keys.
pub struct MakeRules {
    /// The modules, in the order in which they are compiled.
    pub modules: Vec<Module>,
    /// The variants of the dot-product kernel.
    pub dotprod: StringMap<Module>,
}

impl MakeRules {
    /// Whether the rules hold the variant that every build can fall back to.
    pub open spec fn well_formed(&self) -> bool {
        self.dotprod@.dom().contains(DotprodVariant::Portable.spec_key())
    }

    /// Whether the rules hold the variant `variant`.
    pub open spec fn has_variant(&self, variant: DotprodVariant) -> bool {
        self.dotprod@.dom().contains(variant.spec_key())
    }

    /// Whether the rules hold the portable variant of the dot-product kernel.
    pub fn is_well_formed(&self) -> (ok: bool)
        ensures
            ok == self.well_formed(),
    {
        self.dotprod.contains_key(DotprodVariant::Portable.key())
    }

    /// The module of the dot-product variant `variant`, if the rules hold it.
    pub fn variant(&self, variant: DotprodVariant) -> (module: Option<&Module>)
        ensures
            module is Some <==> self.has_variant(variant),
            module matches Some(m) ==> *m == self.dotprod@[variant.spec_key()],
    {
        self.dotprod.get(variant.key())
    }

    /// The module of the one dot-product variant that a build compiles.
    pub fn select_dotprod(&self, simd_override: bool, have_sse: bool) -> (module: &Module)
        requires
            self.has_variant(selected_variant(simd_override, have_sse)),
        ensures
            *module == self.dotprod@[selected_variant(simd_override, have_sse).spec_key()],
    {
        self.variant(select_variant(simd_override, have_sse)).unwrap()
    }
}

/// In well-formed rules a build that falls back to the portable kernel
/// always finds it: with the override active, or on a target without SSE.
pub proof fn lemma_portable_is_found(rules: MakeRules, simd_override: bool, have_sse: bool)
    requires
        rules.well_formed(),
        simd_override || !have_sse,
    ensures
        rules.has_variant(selected_variant(simd_override, have_sse)),
{
}

/// The modules that take part in a build, each with the switch that it
/// depends on.
pub open spec fn modules_to_compile(filter: bool) -> Map<Seq<char>, bool> {
    Map::<Seq<char>, bool>::empty().insert("buffer"@, true).insert("dotprod"@, true).insert(
        "math"@,
        true,
    ).insert("utility"@, true).insert("filter"@, filter)
}

/// The required modules are enabled whatever the switches are, and the
/// optional module `filter` goes by its switch.
pub proof fn lemma_required_modules_enabled(filter: bool)
    ensures
        modules_to_compile(filter).dom() == set![
            "buffer"@,
            "dotprod"@,
            "math"@,
            "utility"@,
            "filter"@,
        ],
        modules_to_compile(filter)["buffer"@],
        modules_to_compile(filter)["dotprod"@],
        modules_to_compile(filter)["math"@],
        modules_to_compile(filter)["utility"@],
        modules_to_compile(filter)["filter"@] == filter,
{
    reveal_strlit("buffer");
    reveal_strlit("dotprod");
    reveal_strlit("math");
    reveal_strlit("utility");
    reveal_strlit("filter");
    assert("buffer"@[0] != "filter"@[0]);
    assert("dotprod"@[0] != "utility"@[0]);
}

/// The enabled-module set of a build whose switch for the module `filter`
/// is `filter`.
pub fn get_modules_to_compile(filter: bool) -> (modules: StringMap<bool>)
    ensures
        modules@ == modules_to_compile(filter),
{
    let modules = StringMap::new();
    // The required modules.
    let modules = modules.insert(String::from_str("buffer"), true);
    let modules = modules.insert(String::from_str("dotprod"), true);
    let modules = modules.insert(String::from_str("math"), true);
    let modules = modules.insert(String::from_str("utility"), true);
    // The optional ones.
    modules.insert(String::from_str("filter"), filter)
}

} // verus!
