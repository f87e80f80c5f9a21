use vstd::prelude::*;
use crate::options::NcthOptions;
use crate::wesl_api::{parent_dir, remove_all, text_of, without};

verus! {

/// One transformation of the pass-by-pass pipeline.
#[derive(PartialEq, Eq, Structural)]
pub enum NcthPass {
    Resolve,
    Normalize,
    Specialize,
    Dealias,
    Mangle,
    Flatten,
}

/// The passes that the switches enable, in the one order in which they may run:
/// resolve, normalize, specialize, dealias, mangle, flatten.
pub open spec fn passes_of(
    resolve: bool,
    normalize: bool,
    specialize: bool,
    dealias: bool,
    mangle: bool,
    flatten: bool,
) -> Seq<NcthPass> {
    (if resolve { seq![NcthPass::Resolve] } else { seq![] })
        + (if normalize { seq![NcthPass::Normalize] } else { seq![] })
        + (if specialize { seq![NcthPass::Specialize] } else { seq![] })
        + (if dealias { seq![NcthPass::Dealias] } else { seq![] })
        + (if mangle { seq![NcthPass::Mangle] } else { seq![] })
        + (if flatten { seq![NcthPass::Flatten] } else { seq![] })
}

/// The position of a pass in the pipeline.
pub open spec fn pass_rank(p: NcthPass) -> int {
    match p {
        NcthPass::Resolve => 0,
        NcthPass::Normalize => 1,
        NcthPass::Specialize => 2,
        NcthPass::Dealias => 3,
        NcthPass::Mangle => 4,
        NcthPass::Flatten => 5,
    }
}

/// The passes of `s` run in pipeline order, each at most once.
pub open spec fn in_pipeline_order(s: Seq<NcthPass>) -> bool {
    forall|i: int, j: int| 0 <= i < j < s.len() ==> pass_rank(s[i]) < pass_rank(s[j])
}

/// Appending at most one pass of rank `k` to passes all of rank below `k` keeps the
/// order.
proof fn lemma_append_ordered(a: Seq<NcthPass>, b: Seq<NcthPass>, k: int)
    requires
        in_pipeline_order(a),
        forall|i: int| 0 <= i < a.len() ==> pass_rank(#[trigger] a[i]) < k,
        b.len() <= 1,
        forall|i: int| 0 <= i < b.len() ==> pass_rank(#[trigger] b[i]) == k,
    ensures
        in_pipeline_order(a + b),
        forall|i: int| 0 <= i < (a + b).len() ==> pass_rank(#[trigger] (a + b)[i]) <= k,
{
    assert forall|i: int, j: int| 0 <= i < j < (a + b).len() implies pass_rank((a + b)[i])
        < pass_rank((a + b)[j]) by {
        if j >= a.len() {
            assert((a + b)[j] == b[j - a.len()]);
        }
    }
    assert forall|i: int| 0 <= i < (a + b).len() implies pass_rank(#[trigger] (a + b)[i]) <= k by {
        if i >= a.len() {
            assert((a + b)[i] == b[i - a.len()]);
        }
    }
}

/// Whatever the switches, the enabled passes run in pipeline order, each at most once.
pub proof fn lemma_passes_ordered(
    resolve: bool,
    normalize: bool,
    specialize: bool,
    dealias: bool,
    mangle: bool,
    flatten: bool,
)
    ensures
        in_pipeline_order(passes_of(resolve, normalize, specialize, dealias, mangle, flatten)),
{
    let s0: Seq<NcthPass> = seq![];
    let s1 = s0 + (if resolve { seq![NcthPass::Resolve] } else { seq![] });
    lemma_append_ordered(s0, if resolve { seq![NcthPass::Resolve] } else { seq![] }, 0);
    let s2 = s1 + (if normalize { seq![NcthPass::Normalize] } else { seq![] });
    lemma_append_ordered(s1, if normalize { seq![NcthPass::Normalize] } else { seq![] }, 1);
    let s3 = s2 + (if specialize { seq![NcthPass::Specialize] } else { seq![] });
    lemma_append_ordered(s2, if specialize { seq![NcthPass::Specialize] } else { seq![] }, 2);
    let s4 = s3 + (if dealias { seq![NcthPass::Dealias] } else { seq![] });
    lemma_append_ordered(s3, if dealias { seq![NcthPass::Dealias] } else { seq![] }, 3);
    let s5 = s4 + (if mangle { seq![NcthPass::Mangle] } else { seq![] });
    lemma_append_ordered(s4, if mangle { seq![NcthPass::Mangle] } else { seq![] }, 4);
    lemma_append_ordered(s5, if flatten { seq![NcthPass::Flatten] } else { seq![] }, 5);
    assert(s0 + (if resolve { seq![NcthPass::Resolve] } else { seq![] }) =~= (if resolve {
        seq![NcthPass::Resolve]
    } else {
        seq![]
    }));
}

/// The passes that `opts` enables.
pub open spec fn enabled_passes(opts: NcthOptions) -> Seq<NcthPass> {
    passes_of(opts.resolve, opts.normalize, opts.specialize, opts.dealias, opts.mangle, opts.flatten)
}

/// Lists the passes that `opts` enables, in pipeline order.
pub fn ncth_passes(opts: &NcthOptions) -> (r: Vec<NcthPass>)
    ensures
        r@ == enabled_passes(*opts),
        in_pipeline_order(r@),
{
    let mut r: Vec<NcthPass> = Vec::new();
    if opts.resolve {
        r.push(NcthPass::Resolve);
    }
    if opts.normalize {
        r.push(NcthPass::Normalize);
    }
    if opts.specialize {
        r.push(NcthPass::Specialize);
    }
    if opts.dealias {
        r.push(NcthPass::Dealias);
    }
    if opts.mangle {
        r.push(NcthPass::Mangle);
    }
    if opts.flatten {
        r.push(NcthPass::Flatten);
    }
    proof {
        assert(r@ =~= enabled_passes(*opts));
        lemma_passes_ordered(
            opts.resolve,
            opts.normalize,
            opts.specialize,
            opts.dealias,
            opts.mangle,
            opts.flatten,
        );
    }
    r
}

/// The namespace that a module's declarations are bundled under: its path with the
/// `.wgsl` and `.wesl` extensions taken out, in that order.
pub open spec fn module_name_of(path: Seq<char>) -> Seq<char> {
    without(without(path, ".wgsl"@), ".wesl"@)
}

/// Computes the namespace of the module at `path`.
pub fn module_name(path: &String) -> (r: String)
    ensures
        r@ == module_name_of(path@),
{
    proof {
        reveal_strlit(".wgsl");
        reveal_strlit(".wesl");
    }
    let first = remove_all(path.as_str(), ".wgsl");
    remove_all(first.as_str(), ".wesl")
}

/// Some entry of `files` has the path `path`.
pub open spec fn listed(files: Seq<(String, String)>, path: Seq<char>) -> bool {
    exists|j: int| 0 <= j < files.len() && #[trigger] files[j].0@ == path
}

/// Tells whether one of the first `n` entries of `files` has the path `path`.
fn listed_before(files: &Vec<(String, String)>, n: usize, path: &String) -> (r: bool)
    requires
        n <= files.len(),
    ensures
        r == listed(files@.take(n as int), path@),
{
    let mut j: usize = 0;
    while j < n
        invariant
            j <= n <= files.len(),
            forall|k: int| 0 <= k < j ==> files@[k].0@ != path@,
        decreases n - j,
    {
        if files[j].0.eq(path) {
            assert(files@.take(n as int)[j as int].0@ == path@);
            return true;
        }
        j = j + 1;
    }
    proof {
        if listed(files@.take(n as int), path@) {
            let k = choose|k: int| 0 <= k < n && #[trigger] files@.take(n as int)[k].0@ == path@;
            assert(files@[k].0@ == path@);
        }
    }
    false
}

/// The modules bundled beside the root, in the order of `files`: each path other than
/// `root`, once, with its namespace.
pub open spec fn side_modules(files: Seq<(String, String)>, root: Seq<char>) -> Seq<(Seq<char>, Seq<char>)>
    decreases files.len(),
{
    if files.len() == 0 {
        seq![]
    } else {
        let rest = side_modules(files.drop_last(), root);
        let path = files.last().0@;
        if path == root || listed(files.drop_last(), path) {
            rest
        } else {
            rest.push((path, module_name_of(path)))
        }
    }
}

/// The text of a sequence of string pairs.
pub open spec fn pairs_text(v: Seq<(String, String)>) -> Seq<(Seq<char>, Seq<char>)> {
    v.map_values(|p: (String, String)| (p.0@, p.1@))
}

/// Lists the modules to bundle beside the root: each path of `files` other than
/// `root`, at its first entry, paired with its namespace.
pub fn module_entries(files: &Vec<(String, String)>, root: &String) -> (r: Vec<(String, String)>)
    ensures
        pairs_text(r@) == side_modules(files@, root@),
{
    let mut r: Vec<(String, String)> = Vec::new();
    let mut i: usize = 0;
    while i < files.len()
        invariant
            i <= files.len(),
            pairs_text(r@) == side_modules(files@.take(i as int), root@),
        decreases files.len() - i,
    {
        let path = &files[i].0;
        let is_root = path.eq(root);
        let repeated = listed_before(files, i, path);
        proof {
            let next = files@.take(i as int + 1);
            assert(next.drop_last() =~= files@.take(i as int));
            assert(next.last() == files@[i as int]);
        }
        if !is_root && !repeated {
            let name = module_name(path);
            r.push((path.clone(), name));
            proof {
                assert(pairs_text(r@) =~= side_modules(files@.take(i as int), root@).push(
                    (path@, module_name_of(path@)),
                ));
            }
        }
        i = i + 1;
    }
    proof {
        assert(files@.take(files.len() as int) =~= files@);
    }
    r
}

/// What the pass-by-pass pipeline does for a request.
pub struct NcthPlan {
    /// The directory that module paths are read relative to.
    pub base_dir: String,
    /// The root module, bundled first and without a namespace.
    pub root: String,
    /// The other modules with their namespaces, bundled after the root in this order.
    pub modules: Vec<(String, String)>,
    /// The passes to run on the bundle, in this order.
    pub passes: Vec<NcthPass>,
}

/// Why a request cannot be planned.
#[derive(PartialEq, Eq, Structural)]
pub enum NcthError {
    /// The root path names no directory to read modules from.
    RootWithoutParent,
}

/// The plan for `opts` read from the directory `dir`, as its other fields fix it.
pub open spec fn plan_matches(p: NcthPlan, opts: NcthOptions, dir: Seq<char>) -> bool {
    &&& p.base_dir@ == dir
    &&& p.root@ == opts.root@
    &&& pairs_text(p.modules@) == side_modules(opts.files@, opts.root@)
    &&& p.passes@ == enabled_passes(opts)
}

/// Plans a request given the parent directory of its root path, `None` where the root
/// path has none.
pub fn plan_with_dir(opts: &NcthOptions, dir: Option<String>) -> (r: Result<NcthPlan, NcthError>)
    ensures
        text_of(dir) matches Some(d) ==> (r matches Ok(p) && plan_matches(p, *opts, d)),
        dir is None ==> r == Err::<NcthPlan, NcthError>(NcthError::RootWithoutParent),
{
    match dir {
        None => Err(NcthError::RootWithoutParent),
        Some(base_dir) => {
            let modules = module_entries(&opts.files, &opts.root);
            let passes = ncth_passes(opts);
            Ok(NcthPlan { base_dir, root: opts.root.clone(), modules, passes })
        },
    }
}

/// Plans a request: reads modules from the parent directory of the root path, bundles
/// the root and then every other module under its namespace, and runs the enabled
/// passes in pipeline order.
pub fn compile_ncth_plan(opts: &NcthOptions) -> (r: Result<NcthPlan, NcthError>)
    ensures
        r matches Ok(p) ==> plan_matches(p, *opts, p.base_dir@),
        r is Err ==> r == Err::<NcthPlan, NcthError>(NcthError::RootWithoutParent),
        opts.root@.len() == 0 ==> r == Err::<NcthPlan, NcthError>(NcthError::RootWithoutParent),
{
    let dir = parent_dir(&opts.root);
    plan_with_dir(opts, dir)
}

} // verus!
