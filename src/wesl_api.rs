use vstd::prelude::*;
use std::borrow::Cow;
use wesl::ManglerKind as Scheme;

verus! {

/// wesl's mangling schemes; its variants are plain, so Verus reads them.
#[verifier::external_type_specification]
pub struct ExScheme(Scheme);

/// wesl's compilation options; every field is public and of a std type.
#[verifier::external_type_specification]
pub struct ExCompileOptions(wesl::CompileOptions);

/// wesl's in-memory module store.
#[verifier::external_type_specification]
#[verifier::external_body]
pub struct ExVirtualResolver<'a>(wesl::VirtualResolver<'a>);

/// The compiled program with its source map.
#[verifier::external_type_specification]
#[verifier::external_body]
pub struct ExCompileResult(wesl::CompileResult);

/// Any error of the wesl pipeline.
#[verifier::external_type_specification]
#[verifier::external_body]
pub struct ExWeslError(wesl::Error);

/// What wesl's module store holds: the source text of each module, by module path.
pub uninterp spec fn modules_of(r: wesl::VirtualResolver<'static>) -> Map<Seq<char>, Seq<char>>;

/// The module path that wesl::ModulePath::from_path makes of the file path `path`,
/// with its origin made absolute, as the module store keys it.
pub uninterp spec fn module_key(path: Seq<char>) -> Seq<char>;

/// A store's contents when it holds no module.
pub open spec fn no_modules() -> Map<Seq<char>, Seq<char>> {
    Map::empty()
}

/// Relies on wesl::VirtualResolver::new: a store that holds no module.
#[verifier::external_body]
pub(crate) fn new_store() -> (r: wesl::VirtualResolver<'static>)
    ensures
        modules_of(r) == no_modules(),
{
    wesl::VirtualResolver::new()
}

/// Relies on wesl::VirtualResolver::add_module: registers `source` under the module path
/// that `path` denotes, replacing what was stored there.
#[verifier::external_body]
pub(crate) fn add_module(resolver: &mut wesl::VirtualResolver<'static>, path: &String, source: String)
    ensures
        modules_of(*final(resolver)) == modules_of(*old(resolver)).insert(module_key(path@), source@),
{
    resolver.add_module(path.as_str(), Cow::Owned(source))
}

} // verus!

verus! {

/// Relies on wesl::compile_sourcemap: compiles the module at `root`, read from
/// `resolver`, with the mangler that `mangler` names, and keeps the source map so
/// that later errors point into the original modules.
#[verifier::external_body]
pub(crate) fn compile_sourcemap(
    root: &String,
    resolver: &wesl::VirtualResolver<'static>,
    mangler: Scheme,
    options: &wesl::CompileOptions,
) -> Result<wesl::CompileResult, wesl::Error> {
    let mut root = wesl::ModulePath::from(root.as_str());
    root.origin = wesl::syntax::PathOrigin::Absolute;
    let (syntax, sourcemap) = match mangler {
        Scheme::Escape => wesl::compile_sourcemap(&root, resolver, &wesl::EscapeMangler, options),
        Scheme::Hash => wesl::compile_sourcemap(&root, resolver, &wesl::HashMangler, options),
        Scheme::Unicode => wesl::compile_sourcemap(&root, resolver, &wesl::UnicodeMangler, options),
        Scheme::None => wesl::compile_sourcemap(&root, resolver, &wesl::NoMangler, options),
    };
    syntax.map(|syntax| wesl::CompileResult { syntax, sourcemap: Some(sourcemap) })
}

/// Relies on the `Display` impl of wesl::CompileResult: the program as WGSL text.
#[verifier::external_body]
pub(crate) fn render(compiled: &wesl::CompileResult) -> String {
    compiled.to_string()
}

/// Relies on wesl::CompileResult::eval: evaluates the const-expression `expr` against
/// the compiled program; the value is rendered by its `Display` impl.
#[verifier::external_body]
pub(crate) fn eval_expr(compiled: &wesl::CompileResult, expr: &String) -> Result<String, wesl::Error> {
    compiled.eval(expr.as_str()).map(|value| value.to_string())
}

/// Relies on the `Display` impl of wesl::Error: the diagnostic as text.
#[verifier::external_body]
pub(crate) fn error_text(error: &wesl::Error) -> String {
    error.to_string()
}

} // verus!

verus! {

/// What ansi_to_html::convert makes of `text`: the HTML markup, or `None` where it
/// reports an error.
pub uninterp spec fn markup_of(text: Seq<char>) -> Option<Seq<char>>;

/// The text of an optional string.
pub open spec fn text_of(s: Option<String>) -> Option<Seq<char>> {
    match s {
        Some(t) => Some(t@),
        None => None,
    }
}

/// Relies on ansi_to_html::convert: turns ANSI colour codes into HTML, escaping the
/// characters special to HTML; the result depends on `text` alone.
#[verifier::external_body]
pub(crate) fn ansi_markup(text: &String) -> (r: Option<String>)
    ensures
        text_of(r) == markup_of(text@),
{
    ansi_to_html::convert(text.as_str()).ok()
}

} // verus!

verus! {

/// `s` with every occurrence of `pat` taken out, matches found from the left without
/// overlap.
pub open spec fn without(s: Seq<char>, pat: Seq<char>) -> Seq<char>
    decreases s.len(),
{
    if pat.len() == 0 || s.len() < pat.len() {
        s
    } else if s.take(pat.len() as int) == pat {
        without(s.skip(pat.len() as int), pat)
    } else {
        seq![s[0]] + without(s.skip(1), pat)
    }
}

/// Relies on str::replace with an empty replacement: each non-overlapping match of
/// `pat`, from the left, is removed.
#[verifier::external_body]
pub(crate) fn remove_all(s: &str, pat: &str) -> (r: String)
    ensures
        r@ == without(s@, pat@),
{
    s.replace(pat, "")
}

/// Relies on std::path::Path::parent, read back as a string: the path without its
/// last component, or `None` where it ends in a root or prefix or is empty. What a
/// component is depends on the platform, so only that the parent is a shorter prefix
/// of the path is stated.
#[verifier::external_body]
pub(crate) fn parent_dir(path: &String) -> (r: Option<String>)
    ensures
        path@.len() == 0 ==> r is None,
        r matches Some(p) ==> p@.len() < path@.len() && p@ == path@.take(p@.len() as int),
{
    std::path::Path::new(path.as_str()).parent().map(|p| p.to_string_lossy().into_owned())
}

} // verus!
