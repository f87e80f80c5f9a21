use vstd::prelude::*;
use std::collections::HashMap;
use wesl::ManglerKind as Scheme;
use crate::options::{ManglerKind, WeslOptions};
use crate::wesl_api::{
    add_module, ansi_markup, compile_sourcemap, error_text, eval_expr, markup_of, module_key,
    modules_of, new_store, no_modules, render, text_of,
};

verus! {

/// The wesl mangling scheme that `kind` selects.
pub open spec fn scheme_of(kind: ManglerKind) -> Scheme {
    match kind {
        ManglerKind::Escape => Scheme::Escape,
        ManglerKind::Hash => Scheme::Hash,
        ManglerKind::Passthrough => Scheme::None,
    }
}

/// Selects the wesl mangling scheme for `kind`.
pub fn make_mangler(kind: &ManglerKind) -> (r: Scheme)
    ensures
        r == scheme_of(*kind),
{
    match kind {
        ManglerKind::Escape => Scheme::Escape,
        ManglerKind::Hash => Scheme::Hash,
        ManglerKind::Passthrough => Scheme::None,
    }
}

/// The wesl options for a request: the switches, the kept declarations and the feature
/// table as given; imports are followed lazily from the root, each module and the
/// output are validated, and generics do not run. Lowering, which inlines aliases and
/// constants, runs only with stripping and only where no expression is evaluated, so
/// that an expression can still name the program's constants.
pub fn compile_options(
    imports: bool,
    condcomp: bool,
    strip: bool,
    evaluating: bool,
    keep: Option<Vec<String>>,
    features: HashMap<String, bool>,
) -> (r: wesl::CompileOptions)
    ensures
        r.imports == imports,
        r.condcomp == condcomp,
        r.strip == strip,
        r.keep == keep,
        r.features == features,
        r.lazy,
        r.validate,
        r.lower == (strip && !evaluating),
        !r.generics,
{
    wesl::CompileOptions {
        imports,
        condcomp,
        generics: false,
        strip,
        lower: strip && !evaluating,
        validate: true,
        lazy: true,
        keep,
        features,
    }
}

/// The store that registers the modules of `files` in order, a later entry for a path
/// replacing an earlier one.
pub open spec fn store_of(files: Seq<(String, String)>) -> Map<Seq<char>, Seq<char>>
    decreases files.len(),
{
    if files.len() == 0 {
        no_modules()
    } else {
        store_of(files.drop_last()).insert(module_key(files.last().0@), files.last().1@)
    }
}

/// A module store holding every module of `files`.
pub fn load_modules(files: &Vec<(String, String)>) -> (r: wesl::VirtualResolver<'static>)
    ensures
        modules_of(r) == store_of(files@),
{
    let mut resolver = new_store();
    let mut i: usize = 0;
    while i < files.len()
        invariant
            i <= files.len(),
            modules_of(resolver) == store_of(files@.take(i as int)),
        decreases files.len() - i,
    {
        let (path, source) = &files[i];
        proof {
            let next = files@.take(i as int + 1);
            assert(next.drop_last() =~= files@.take(i as int));
            assert(next.last() == files@[i as int]);
        }
        add_module(&mut resolver, path, source.clone());
        i = i + 1;
    }
    proof {
        assert(files@.take(files.len() as int) =~= files@);
    }
    resolver
}

/// The output for a compiled program with text `program`, followed on a line of its
/// own by the value of the evaluated expression.
pub open spec fn program_and_value(program: Seq<char>, value: Seq<char>) -> Seq<char> {
    program + seq!['\n'] + value
}

/// The result of a request, given the rendered program and, where an expression was
/// evaluated, the outcome of the evaluation.
pub open spec fn finished(
    program: Seq<char>,
    value: Option<Result<String, wesl::Error>>,
) -> Result<Seq<char>, wesl::Error> {
    match value {
        None => Ok(program),
        Some(Ok(v)) => Ok(program_and_value(program, v@)),
        Some(Err(e)) => Err(e),
    }
}

/// The text of a result whose success holds a string.
pub open spec fn result_text<E>(r: Result<String, E>) -> Result<Seq<char>, E> {
    match r {
        Ok(s) => Ok(s@),
        Err(e) => Err(e),
    }
}

/// Completes a request from the rendered program and, where an expression was given,
/// the outcome of evaluating it: the program alone, the program with the value, or the
/// evaluation error.
pub fn finish(program: String, value: Option<Result<String, wesl::Error>>) -> (r: Result<
    String,
    wesl::Error,
>)
    ensures
        result_text(r) == finished(program@, value),
{
    match value {
        None => Ok(program),
        Some(Ok(v)) => {
            proof {
                reveal_strlit("\n");
            }
            let mut out = program;
            out.append("\n");
            out.append(v.as_str());
            assert(out@ =~= program_and_value(program@, v@));
            Ok(out)
        },
        Some(Err(e)) => Err(e),
    }
}

/// Runs the wesl pipeline on a request: the WGSL text of the compiled program, with
/// aliases and constants inlined where stripping is on, followed, where the request
/// holds an expression, by that expression's value computed against the program with
/// its declarations kept.
pub fn compile_impl(args: WeslOptions) -> (r: Result<String, wesl::Error>)
    ensures
        args.eval is Some ==> (r matches Ok(s) ==> exists|program: Seq<char>, value: Seq<char>|
            s@ == program_and_value(program, value)),
{
    let resolver = load_modules(&args.files);
    let scheme = make_mangler(&args.mangler);
    let options = compile_options(
        args.imports,
        args.condcomp,
        args.strip,
        args.eval.is_some(),
        args.entrypoints,
        args.features,
    );
    match compile_sourcemap(&args.root, &resolver, scheme, &options) {
        Err(e) => Err(e),
        Ok(compiled) => {
            let program = render(&compiled);
            let value = match args.eval {
                Some(expr) => Some(eval_expr(&compiled, &expr)),
                None => None,
            };
            finish(program, value)
        },
    }
}

/// The message shown for a diagnostic whose text is `plain`, given what the ANSI to
/// HTML conversion made of it: the markup, or the plain text where it failed.
pub open spec fn shown_message(plain: Seq<char>, markup: Option<Seq<char>>) -> Seq<char> {
    match markup {
        Some(m) => m,
        None => plain,
    }
}

/// Picks the message to show for a diagnostic, from its plain text and the result of
/// converting that text to HTML.
pub fn error_message(plain: String, markup: Option<String>) -> (r: String)
    ensures
        r@ == shown_message(plain@, text_of(markup)),
{
    match markup {
        Some(m) => m,
        None => plain,
    }
}

/// Turns the text of a diagnostic into the HTML markup shown to the user.
pub fn markup_message(plain: String) -> (r: String)
    ensures
        r@ == shown_message(plain@, markup_of(plain@)),
{
    let markup = ansi_markup(&plain);
    error_message(plain, markup)
}

/// Hands a result to the user: a success as it is, a diagnostic as HTML markup.
pub fn presented(result: Result<String, wesl::Error>) -> (r: Result<String, String>)
    ensures
        result is Ok <==> r is Ok,
        result matches Ok(s) ==> r == Ok::<String, String>(s),
        r matches Err(m) ==> exists|plain: Seq<char>| m@ == shown_message(plain, markup_of(plain)),
{
    match result {
        Ok(out) => Ok(out),
        Err(e) => Err(markup_message(error_text(&e))),
    }
}

/// Compiles a request; a diagnostic comes back as HTML markup.
pub fn compile(args: WeslOptions) -> (r: Result<String, String>)
    ensures
        args.eval is Some ==> (r matches Ok(s) ==> exists|program: Seq<char>, value: Seq<char>|
            s@ == program_and_value(program, value)),
        r matches Err(m) ==> exists|plain: Seq<char>| m@ == shown_message(plain, markup_of(plain)),
{
    presented(compile_impl(args))
}

} // verus!
