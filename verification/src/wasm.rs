//! The rewriting of a binary: it is parsed with the sections that are to be
//! kept, the names of its functions are demangled, and it is written out
//! again. Parsing and writing are the work of `walrus`, demangling that of
//! `rustc_demangle`.
//!
//! A module that keeps its debug sections is handed back unwritten: to
//! write it out `walrus` converts the debug information, and ends the
//! process where it cannot. The caller writes such a module out, and guards
//! against that.

use crate::error::{Error, ErrorKind};
use crate::postprocess::{section_policy, section_policy_spec};
use crate::records::{CargoBuild, Profile};
use vstd::prelude::*;

verus! {

/// The readable form of a symbol that is in one of the compiler's mangled
/// forms; none for any other text.
pub uninterp spec fn demangled(name: Seq<char>) -> Option<Seq<char>>;

/// The names of the functions of a parsed binary, in the order of the
/// functions; none for a function without a name.
pub uninterp spec fn function_names(module: walrus::Module) -> Seq<Option<Seq<char>>>;

/// Whether a parsed binary was parsed to keep its debug sections.
pub uninterp spec fn keeps_debug(module: walrus::Module) -> bool;

/// The bytes that a parsed binary is written out as.
pub uninterp spec fn emitted(module: walrus::Module) -> Seq<u8>;

/// The names of the functions of the binary `wasm`, in the order of the
/// functions, if `wasm` can be parsed as a binary when the debug sections,
/// the name section and the producers section are kept as the flags say and
/// validation is strict or not; none if it cannot be parsed.
pub uninterp spec fn parsed_names(
    wasm: Seq<u8>,
    dwarf: bool,
    names: bool,
    producers: bool,
    strict: bool,
) -> Option<Seq<Option<Seq<char>>>>;

/// A name as plain values.
pub open spec fn name_view(name: Option<String>) -> Option<Seq<char>> {
    match name {
        Some(s) => Some(s@),
        None => None,
    }
}

/// Names as plain values.
pub open spec fn name_views(names: Seq<Option<String>>) -> Seq<Option<Seq<char>>> {
    names.map_values(|n: Option<String>| name_view(n))
}

/// `rustc_demangle::try_demangle`, and the text of what it returns: the
/// readable form of `name` if `name` is a mangled symbol, else nothing. The
/// result depends on `name` alone.
#[verifier::external_body]
fn try_demangle(name: &str) -> (r: Option<String>)
    ensures
        name_view(r) == demangled(name@),
{
    match rustc_demangle::try_demangle(name) {
        Ok(symbol) => Some(format!("{}", symbol)),
        Err(_) => None,
    }
}

/// `walrus::ModuleConfig::parse`, with the four flags set as given; a
/// failure comes back as its message with its causes. Whether it succeeds,
/// and the names of the functions of the module that it returns, depend on
/// the arguments alone. The module remembers whether it keeps its debug
/// sections. Nothing is claimed of the message.
#[verifier::external_body]
fn parse_module(wasm: &[u8], dwarf: bool, names: bool, producers: bool, strict: bool) -> (r:
    Result<walrus::Module, String>)
    ensures
        match r {
            Ok(m) => parsed_names(wasm@, dwarf, names, producers, strict) == Some(
                function_names(m),
            ) && keeps_debug(m) == dwarf,
            Err(_) => parsed_names(wasm@, dwarf, names, producers, strict) is None,
        },
{
    walrus::ModuleConfig::new().generate_dwarf(dwarf).generate_name_section(
        names,
    ).generate_producers_section(producers).strict_validate(strict).parse(wasm).map_err(
        |e| format!("{:#}", e),
    )
}

/// The field `name` of each function of `walrus::Module::funcs`, in the
/// order in which `iter` walks them.
#[verifier::external_body]
fn names_of(module: &walrus::Module) -> (names: Vec<Option<String>>)
    ensures
        name_views(names@) == function_names(*module),
{
    module.funcs.iter().map(|f| f.name.clone()).collect()
}

/// Sets the field `name` of each function of `walrus::Module::funcs`, in
/// the order in which `iter_mut` walks them, which is that of `iter`.
/// Nothing else of the module is touched.
#[verifier::external_body]
fn rename(module: &mut walrus::Module, names: Vec<Option<String>>)
    requires
        names@.len() == function_names(*old(module)).len(),
    ensures
        function_names(*final(module)) == name_views(names@),
        keeps_debug(*final(module)) == keeps_debug(*old(module)),
{
    for (f, n) in module.funcs.iter_mut().zip(names) {
        f.name = n;
    }
}

/// `walrus::Module::emit_wasm`: the module as a binary. The bytes depend on
/// the module alone. A module that keeps its debug sections is left out:
/// for it `walrus` converts the debug information, and gives up without
/// returning where it cannot.
#[verifier::external_body]
fn emit(module: &mut walrus::Module) -> (wasm: Vec<u8>)
    requires
        !keeps_debug(*old(module)),
    ensures
        wasm@ == emitted(*old(module)),
{
    module.emit_wasm()
}

/// The name that a function gets: the readable form of its name if the name
/// is a mangled symbol, else the name as it is.
pub open spec fn demangle_spec(name: Seq<char>) -> Seq<char> {
    match demangled(name) {
        Some(readable) => readable,
        None => name,
    }
}

/// The name that a function gets, given what demangling made of its name.
pub fn pick_name(name: &str, readable: Option<String>) -> (out: String)
    ensures
        out@ == match readable {
            Some(r) => r@,
            None => name@,
        },
{
    match readable {
        Some(r) => r,
        None => name.to_owned(),
    }
}

/// The name that a function with the name `name` gets.
pub fn demangle_name(name: &str) -> (out: String)
    ensures
        out@ == demangle_spec(name@),
{
    let readable = try_demangle(name);
    pick_name(name, readable)
}

/// The names that the functions get: each name demangled, and no name where
/// there was none.
pub open spec fn demangle_all(names: Seq<Option<Seq<char>>>) -> Seq<Option<Seq<char>>> {
    names.map_values(
        |n: Option<Seq<char>>|
            match n {
                Some(s) => Some(demangle_spec(s)),
                None => None,
            },
    )
}

/// The names that the functions get.
pub fn demangle_names(names: &Vec<Option<String>>) -> (out: Vec<Option<String>>)
    ensures
        name_views(out@) == demangle_all(name_views(names@)),
{
    let mut out: Vec<Option<String>> = Vec::new();
    let ghost want = demangle_all(name_views(names@));
    let mut i: usize = 0;
    while i < names.len()
        invariant
            i <= names.len(),
            want == demangle_all(name_views(names@)),
            name_views(out@) == want.take(i as int),
        decreases names.len() - i,
    {
        let item: Option<String> = match &names[i] {
            Some(n) => Some(demangle_name(n.as_str())),
            None => None,
        };
        proof {
            assert(name_views(names@)[i as int] == name_view(names@[i as int]));
            assert(name_views(out@.push(item)) =~= name_views(out@).push(name_view(item)));
            assert(want.take(i + 1) =~= want.take(i as int).push(want[i as int]));
        }
        out.push(item);
        i += 1;
    }
    assert(want.take(names.len() as int) =~= want);
    out
}

/// Demangles the name of every function of `module`.
pub fn demangle_functions(module: &mut walrus::Module)
    ensures
        function_names(*final(module)) == demangle_all(function_names(*old(module))),
        keeps_debug(*final(module)) == keeps_debug(*old(module)),
{
    let names = names_of(module);
    let renamed = demangle_names(&names);
    assert(name_views(renamed@).len() == name_views(names@).len());
    rename(module, renamed);
}

/// A name that is not a mangled symbol stays as it is.
pub proof fn lemma_plain_name_unchanged(name: Seq<char>)
    requires
        demangled(name) is None,
    ensures
        demangle_spec(name) == name,
{
}

/// Demangling twice gives what demangling once gives, wherever the
/// readable form of the name is not itself a mangled symbol.
pub proof fn lemma_demangle_idempotent(name: Seq<char>)
    requires
        demangled(demangle_spec(name)) is None,
    ensures
        demangle_spec(demangle_spec(name)) == demangle_spec(name),
{
}

/// Demangling the names of all functions twice gives what demangling them
/// once gives, wherever no readable form is itself a mangled symbol.
pub proof fn lemma_demangle_all_idempotent(names: Seq<Option<Seq<char>>>)
    requires
        forall|i: int|
            0 <= i < names.len() ==> (#[trigger] names[i] matches Some(n) ==> demangled(
                demangle_spec(n),
            ) is None),
    ensures
        demangle_all(demangle_all(names)) == demangle_all(names),
{
    assert(demangle_all(demangle_all(names)) =~= demangle_all(names));
}

/// What rewriting a binary comes to.
#[derive(Debug)]
pub enum Processed {
    /// The rewritten binary.
    Binary(Vec<u8>),
    /// The rewritten module of a binary that keeps its debug sections. It is
    /// not written out: writing it out means converting its debug
    /// information, which ends the process where the information is broken.
    /// The caller writes it out, and guards against that.
    Module(walrus::Module),
}

/// Rewrites the binary `raw` that was built with `profile`: it is parsed
/// with the sections that `section_policy` keeps, the name of every function
/// is demangled, and the module is written out again, unless it keeps its
/// debug sections. It fails if and only if the binary cannot be parsed.
pub fn process_wasm(raw: &[u8], profile: &Profile, build: &CargoBuild) -> (r: Result<
    Processed,
    Error,
>)
    ensures
        ({
            let policy = section_policy_spec(profile@, build.manifest_config);
            let parsed = parsed_names(
                raw@,
                policy.dwarf,
                policy.names,
                policy.producers,
                false,
            );
            match r {
                Ok(Processed::Binary(b)) => !policy.dwarf && parsed is Some && exists|
                    m: walrus::Module,
                |
                    b@ == #[trigger] emitted(m) && !keeps_debug(m) && function_names(m)
                        == demangle_all(parsed->0),
                Ok(Processed::Module(m)) => policy.dwarf && parsed is Some && keeps_debug(m)
                    && function_names(m) == demangle_all(parsed->0),
                Err(e) => parsed is None && e.kind is Parse && e.context@.len() == 0,
            }
        }),
{
    let policy = section_policy(profile, build);
    match parse_module(raw, policy.dwarf, policy.names, policy.producers, false) {
        Ok(module) => {
            let mut module = module;
            demangle_functions(&mut module);
            if policy.dwarf {
                Ok(Processed::Module(module))
            } else {
                let ghost renamed = module;
                let wasm = emit(&mut module);
                assert(wasm@ == emitted(renamed));
                Ok(Processed::Binary(wasm))
            }
        },
        Err(text) => Err(Error::new(ErrorKind::Parse, text)),
    }
}

} // verus!
