//! Template substitution for branch names and prompt bodies.
//!
//! A template is plain text with variables written `{{ key }}`. Rendering
//! replaces each variable with the first value bound to its key in the
//! ordered context; a variable bound to no value is an error, never an empty
//! substitution. A `{{` with no closing `}}` is kept literally.

use vstd::prelude::*;
use vstd::string::*;

use crate::errors::WorkmuxError;
use crate::strutil::{
    first_index_of, lemma_first_index_of, split_on, split_on_char, str_eq, strip_space_ends,
    trim_spaces, view_strs,
};

verus! {

/// The views of an ordered list of key/value bindings.
pub open spec fn view_pairs(v: Seq<(String, String)>) -> Seq<(Seq<char>, Seq<char>)>
    decreases v.len(),
{
    if v.len() == 0 {
        Seq::empty()
    } else {
        seq![(v[0].0@, v[0].1@)] + view_pairs(v.skip(1))
    }
}

/// `view_pairs` keeps length and maps each binding to its views.
pub proof fn lemma_view_pairs_index(v: Seq<(String, String)>)
    ensures
        view_pairs(v).len() == v.len(),
        forall|i: int|
            0 <= i < v.len() ==> #[trigger] view_pairs(v)[i] == (v[i].0@, v[i].1@),
    decreases v.len(),
{
    if v.len() > 0 {
        lemma_view_pairs_index(v.skip(1));
        assert(forall|i: int|
            0 <= i < v.skip(1).len() ==> #[trigger] v.skip(1)[i] == v[i + 1]);
    }
}

/// Index of the first binding for `key`, or `-1`.
pub open spec fn first_key(ctx: Seq<(Seq<char>, Seq<char>)>, key: Seq<char>) -> int
    decreases ctx.len(),
{
    if ctx.len() == 0 {
        -1
    } else if ctx[0].0 == key {
        0
    } else {
        let r = first_key(ctx.skip(1), key);
        if r == -1 {
            -1
        } else {
            r + 1
        }
    }
}

/// Characterizes `first_key` by a scan that stopped at `i`.
proof fn lemma_first_key(ctx: Seq<(Seq<char>, Seq<char>)>, key: Seq<char>, i: int)
    requires
        0 <= i <= ctx.len(),
        forall|j: int| 0 <= j < i ==> (#[trigger] ctx[j]).0 != key,
        i == ctx.len() || ctx[i].0 == key,
    ensures
        first_key(ctx, key) == if i == ctx.len() {
            -1int
        } else {
            i
        },
    decreases i,
{
    if i == 0 {
    } else {
        assert(ctx[0].0 != key);
        lemma_first_key(ctx.skip(1), key, i - 1);
    }
}

/// Index of the first `}}` at or after position `i`, or `-1`.
pub open spec fn first_close_from(t: Seq<char>, i: int) -> int
    decreases t.len() - i,
{
    if i < 0 || i + 1 >= t.len() {
        -1
    } else if t[i] == '}' && t[i + 1] == '}' {
        i
    } else {
        first_close_from(t, i + 1)
    }
}

/// When no `}}` starts in `[i, m)`, searching from `i` and from `m` agree.
proof fn lemma_first_close_skip(t: Seq<char>, i: int, m: int)
    requires
        0 <= i <= m <= t.len(),
        forall|j: int| i <= j < m ==> !(j + 1 < t.len() && #[trigger] t[j] == '}' && t[j + 1] == '}'),
    ensures
        first_close_from(t, i) == first_close_from(t, m),
    decreases m - i,
{
    if i < m {
        if i + 1 >= t.len() {
            assert(m + 1 >= t.len());
        } else {
            lemma_first_close_skip(t, i + 1, m);
        }
    }
}

/// Prefixes an optional rendering result.
pub open spec fn opt_prepend(prefix: Seq<char>, r: Option<Seq<char>>) -> Option<Seq<char>> {
    match r {
        None => None,
        Some(s) => Some(prefix + s),
    }
}

/// The rendering of template `t` under the ordered context `ctx`: variables
/// `{{ key }}` become the first value bound to `key`; a key with no binding
/// makes the whole rendering undefined; an unclosed `{{` stays literal.
pub open spec fn spec_render(t: Seq<char>, ctx: Seq<(Seq<char>, Seq<char>)>) -> Option<Seq<char>>
    decreases t.len(),
{
    if t.len() == 0 {
        Some(t)
    } else if t.len() >= 2 && t[0] == '{' && t[1] == '{' && 2 <= first_close_from(t, 2)
        && first_close_from(t, 2) + 1 < t.len() {
        let k = first_close_from(t, 2);
        let key = trim_spaces(t.subrange(2, k));
        let v = first_key(ctx, key);
        if v < 0 {
            None
        } else {
            opt_prepend(ctx[v].1, spec_render(t.skip(k + 2), ctx))
        }
    } else {
        opt_prepend(seq![t[0]], spec_render(t.skip(1), ctx))
    }
}

/// Renders a template under an ordered context. Fails exactly when some
/// variable in the template has no binding, naming that variable.
pub fn render(template: &str, ctx: &Vec<(String, String)>) -> (r: Result<String, WorkmuxError>)
    ensures
        r is Ok <==> spec_render(template@, view_pairs(ctx@)) is Some,
        r matches Ok(s) ==> Some(s@) == spec_render(template@, view_pairs(ctx@)),
        r matches Err(e) ==> e matches WorkmuxError::UndefinedVariable(_),
{
    let ghost v = view_pairs(ctx@);
    let n: usize = template.unicode_len();
    let mut out = String::new();
    let mut p: usize = 0;
    proof {
        assert(template@.skip(0) =~= template@);
    }
    while p < n
        invariant
            n == template@.len(),
            v == view_pairs(ctx@),
            0 <= p <= n,
            spec_render(template@, v) == opt_prepend(out@, spec_render(template@.skip(p as int), v)),
        decreases n - p,
    {
        let ghost suffix = template@.skip(p as int);
        let mut simple = true;
        if p + 1 < n && template.get_char(p) == '{' && template.get_char(p + 1) == '{' {
            // Find the first closing braces.
            let mut m: usize = p + 2;
            while m < n - 1 && !(template.get_char(m) == '}' && template.get_char(m + 1) == '}')
                invariant
                    n == template@.len(),
                    p + 1 < n,
                    p + 2 <= m <= n,
                    forall|j: int|
                        p + 2 <= j < m ==> !(j + 1 < n && #[trigger] template@[j] == '}'
                            && template@[j + 1] == '}'),
                decreases n - m,
            {
                m = m + 1;
            }
            proof {
                assert(forall|j: int|
                    2 <= j < m - p ==> !(j + 1 < suffix.len() && #[trigger] suffix[j] == '}'
                        && suffix[j + 1] == '}'));
                lemma_first_close_skip(suffix, 2, m - p);
            }
            if m < n - 1 {
                proof {
                    assert(suffix[m - p] == '}' && suffix[m - p + 1] == '}');
                    assert(first_close_from(suffix, m - p) == m - p);
                    assert(first_close_from(suffix, 2) == m - p);
                }
                let key_part = template.substring_char(p + 2, m);
                let key = strip_space_ends(key_part);
                proof {
                    assert(key_part@ =~= suffix.subrange(2, m - p));
                    lemma_view_pairs_index(ctx@);
                }
                let cn: usize = ctx.len();
                let mut ci: usize = 0;
                let mut found: Option<usize> = None;
                while ci < cn && found.is_none()
                    invariant
                        cn == ctx@.len(),
                        v == view_pairs(ctx@),
                        v.len() == cn,
                        forall|i: int| 0 <= i < cn ==> #[trigger] v[i] == (ctx@[i].0@, ctx@[i].1@),
                        0 <= ci <= cn,
                        match found {
                            Some(i) => i < cn && first_key(v, key@) == i,
                            None => forall|j: int| 0 <= j < ci ==> (#[trigger] v[j]).0 != key@,
                        },
                    decreases cn - ci, (if found is None { 1int } else { 0int }),
                {
                    if str_eq(ctx[ci].0.as_str(), key) {
                        proof {
                            lemma_first_key(v, key@, ci as int);
                        }
                        found = Some(ci);
                    } else {
                        ci = ci + 1;
                    }
                }
                proof {
                    if found is None {
                        lemma_first_key(v, key@, cn as int);
                    }
                }
                match found {
                    Some(ci) => {
                        proof {
                            assert(first_key(v, key@) == ci as int);
                            assert(spec_render(suffix, v) == opt_prepend(
                                v[ci as int].1,
                                spec_render(suffix.skip(m - p + 2), v),
                            ));
                            assert(suffix.skip(m - p + 2) =~= template@.skip(m + 2));
                        }
                        let ghost out_before = out@;
                        out.append(ctx[ci].1.as_str());
                        proof {
                            let rest = spec_render(template@.skip(m + 2), v);
                            match rest {
                                None => {},
                                Some(s) => {
                                    assert((out_before + (v[ci as int].1 + s)) =~= (out@ + s));
                                },
                            }
                        }
                        p = m + 2;
                        simple = false;
                    },
                    None => {
                        proof {
                            lemma_first_key(v, key@, cn as int);
                            assert(first_key(v, key@) == -1);
                            assert(spec_render(suffix, v) is None);
                            assert(spec_render(template@, v) is None);
                        }
                        return Err(WorkmuxError::UndefinedVariable(String::from_str(key)));
                    },
                }
            } else {
                proof {
                    assert(first_close_from(suffix, m - p) == -1);
                    assert(first_close_from(suffix, 2) == -1);
                }
            }
        }
        if simple {
            // One literal character.
            proof {
                assert(suffix[0] == template@[p as int]);
                assert(spec_render(suffix, v) == opt_prepend(
                    seq![suffix[0]],
                    spec_render(suffix.skip(1), v),
                ));
                assert(suffix.skip(1) =~= template@.skip(p + 1));
            }
            let ghost out_before = out@;
            let one = template.substring_char(p, p + 1);
            proof {
                assert(one@ =~= seq![template@[p as int]]);
            }
            out.append(one);
            proof {
                let rest = spec_render(template@.skip(p + 1), v);
                match rest {
                    None => {},
                    Some(s) => {
                        assert((out_before + (seq![template@[p as int]] + s)) =~= (out@ + s));
                    },
                }
            }
            p = p + 1;
        }
    }
    proof {
        assert(template@.skip(n as int) =~= Seq::<char>::empty());
        assert(spec_render(template@.skip(n as int), v) == Some(Seq::<char>::empty()));
        assert(out@ + Seq::<char>::empty() =~= out@);
    }
    Ok(out)
}

/// The decimal digit character for `d`.
pub open spec fn spec_digit(d: nat) -> char {
    if d == 0 {
        '0'
    } else if d == 1 {
        '1'
    } else if d == 2 {
        '2'
    } else if d == 3 {
        '3'
    } else if d == 4 {
        '4'
    } else if d == 5 {
        '5'
    } else if d == 6 {
        '6'
    } else if d == 7 {
        '7'
    } else if d == 8 {
        '8'
    } else {
        '9'
    }
}

/// The decimal notation of `n`, without leading zeros.
pub open spec fn dec_str(n: nat) -> Seq<char>
    decreases n,
{
    if n < 10 {
        seq![spec_digit(n)]
    } else {
        dec_str(n / 10) + seq![spec_digit(n % 10)]
    }
}

/// The one-character string for a decimal digit.
fn digit_str(d: usize) -> (r: &'static str)
    requires
        d < 10,
    ensures
        r@ == seq![spec_digit(d as nat)],
{
    if d == 0 {
        proof {
            reveal_strlit("0");
        }
        "0"
    } else if d == 1 {
        proof {
            reveal_strlit("1");
        }
        "1"
    } else if d == 2 {
        proof {
            reveal_strlit("2");
        }
        "2"
    } else if d == 3 {
        proof {
            reveal_strlit("3");
        }
        "3"
    } else if d == 4 {
        proof {
            reveal_strlit("4");
        }
        "4"
    } else if d == 5 {
        proof {
            reveal_strlit("5");
        }
        "5"
    } else if d == 6 {
        proof {
            reveal_strlit("6");
        }
        "6"
    } else if d == 7 {
        proof {
            reveal_strlit("7");
        }
        "7"
    } else if d == 8 {
        proof {
            reveal_strlit("8");
        }
        "8"
    } else {
        proof {
            reveal_strlit("9");
        }
        "9"
    }
}

/// The decimal notation of `n`.
pub fn usize_to_string(n: usize) -> (r: String)
    ensures
        r@ == dec_str(n as nat),
    decreases n,
{
    if n < 10 {
        String::from_str(digit_str(n))
    } else {
        let mut s = usize_to_string(n / 10);
        s.append(digit_str(n % 10));
        s
    }
}

/// `view_pairs` distributes over appending one binding.
pub proof fn lemma_view_pairs_push(v: Seq<(String, String)>, e: (String, String))
    ensures
        view_pairs(v.push(e)) == view_pairs(v) + seq![(e.0@, e.1@)],
    decreases v.len(),
{
    if v.len() == 0 {
        assert(v.push(e).skip(1) =~= Seq::<(String, String)>::empty());
        assert(v.push(e)[0] == e);
        assert(view_pairs(v.push(e).skip(1)) =~= Seq::<(Seq<char>, Seq<char>)>::empty());
        assert(view_pairs(v.push(e)) =~= Seq::<(Seq<char>, Seq<char>)>::empty() + seq![
            (e.0@, e.1@),
        ]);
        assert(view_pairs(v) + seq![(e.0@, e.1@)] =~= Seq::<(Seq<char>, Seq<char>)>::empty()
            + seq![(e.0@, e.1@)]);
    } else {
        assert(v.push(e).skip(1) =~= v.skip(1).push(e));
        lemma_view_pairs_push(v.skip(1), e);
        assert(seq![(v[0].0@, v[0].1@)] + (view_pairs(v.skip(1)) + seq![(e.0@, e.1@)]) =~= (seq![
            (v[0].0@, v[0].1@),
        ] + view_pairs(v.skip(1))) + seq![(e.0@, e.1@)]);
    }
}

/// One concrete worktree to be materialized: its branch, an optional agent
/// tag, and the ordered substitution context its templates are rendered
/// under. Immutable once generated.
#[derive(Debug, Clone)]
pub struct WorktreeSpec {
    /// Branch the worktree will be bound to.
    pub branch_name: String,
    /// Agent tag when agent expansion produced this spec.
    pub agent: Option<String>,
    /// Ordered variable bindings for template substitution.
    pub template_context: Vec<(String, String)>,
}

/// The views of an optional list of matrix rows.
pub open spec fn view_opt_rows(o: Option<&Vec<Vec<(String, String)>>>) -> Option<
    Seq<Vec<(String, String)>>,
> {
    match o {
        Some(v) => Some(v@),
        None => None,
    }
}

/// A repeat count above one combined with more than one agent tag: no
/// single expansion source wins, so the request is refused.
pub open spec fn spec_ambiguous(agents_len: int, count: Option<usize>) -> bool {
    &&& count matches Some(c) && c > 1
    &&& agents_len > 1
}

/// How many specs a request expands to: one per matrix row when rows are
/// given, else one per agent tag, else the repeat count, else one.
pub open spec fn spec_n_specs(
    agents_len: int,
    count: Option<usize>,
    rows: Option<Seq<Vec<(String, String)>>>,
) -> int {
    match rows {
        Some(rs) => rs.len() as int,
        None => if agents_len > 0 {
            agents_len
        } else {
            match count {
                Some(c) => c as int,
                None => 1,
            }
        },
    }
}

/// The substitution context of spec `i`: the matrix row's bindings first
/// (so they dominate), then the base branch, the agent tag when agents
/// drive the expansion, and the one-based index.
pub open spec fn spec_ctx_at(
    base: Seq<char>,
    agents: Seq<String>,
    rows: Option<Seq<Vec<(String, String)>>>,
    i: int,
) -> Seq<(Seq<char>, Seq<char>)> {
    match rows {
        Some(rs) => view_pairs(rs[i]@) + seq![
            ("branch"@, base),
            ("index"@, dec_str((i + 1) as nat)),
        ],
        None => if agents.len() > 0 {
            seq![("branch"@, base), ("agent"@, agents[i]@), ("index"@, dec_str((i + 1) as nat))]
        } else {
            seq![("branch"@, base), ("index"@, dec_str((i + 1) as nat))]
        },
    }
}

/// The branch name of spec `i` when no branch-name template is configured:
/// the base name alone for a single spec, and the base name with the agent
/// tag or the one-based index behind a dash when several specs must carry
/// distinct branches.
pub open spec fn spec_default_branch(
    base: Seq<char>,
    agents: Seq<String>,
    has_rows: bool,
    count: Option<usize>,
    i: int,
) -> Seq<char> {
    if has_rows {
        base + "-"@ + dec_str((i + 1) as nat)
    } else if agents.len() > 0 {
        base + "-"@ + agents[i]@
    } else if count matches Some(c) && c > 1 {
        base + "-"@ + dec_str((i + 1) as nat)
    } else {
        base
    }
}

/// Appends one binding to an ordered context.
fn push_binding(ctx: &mut Vec<(String, String)>, k: String, v: String)
    ensures
        view_pairs(final(ctx)@) == view_pairs(old(ctx)@) + seq![(k@, v@)],
        final(ctx)@ == old(ctx)@.push((k, v)),
{
    let ghost gp: (String, String) = (k, v);
    let ghost prev = ctx@;
    ctx.push((k, v));
    proof {
        lemma_view_pairs_push(prev, gp);
    }
}

/// A copy of an ordered list of bindings.
fn clone_pairs(v: &Vec<(String, String)>) -> (r: Vec<(String, String)>)
    ensures
        r@ == v@,
{
    let n: usize = v.len();
    let mut r: Vec<(String, String)> = Vec::new();
    let mut i: usize = 0;
    while i < n
        invariant
            n == v@.len(),
            0 <= i <= n,
            r@ =~= v@.take(i as int),
        decreases n - i,
    {
        let pair = (v[i].0.clone(), v[i].1.clone());
        assert(pair == v@[i as int]);
        r.push(pair);
        i = i + 1;
    }
    proof {
        assert(r@ =~= v@);
    }
    r
}

/// Expands one creation request into its ordered list of worktree specs.
///
/// Exactly one expansion source wins: matrix rows when given, else the
/// agent tags in input order, else a repeat count, else a single spec from
/// the base branch name. A repeat count above one together with more than
/// one agent tag is ambiguous and refused; a request that expands to no
/// spec at all is an error, never an empty success. Each spec's branch name
/// comes from the configured branch-name template rendered under the
/// spec's context, or from the default naming when none is configured.
pub fn generate_worktree_specs(
    base_branch_name: &str,
    agents: &Vec<String>,
    count: Option<usize>,
    foreach_rows: Option<&Vec<Vec<(String, String)>>>,
    branch_name_template: Option<&str>,
) -> (r: Result<Vec<WorktreeSpec>, WorkmuxError>)
    ensures
        ({
            let base = base_branch_name@;
            let rows = view_opt_rows(foreach_rows);
            let amb = spec_ambiguous(agents@.len() as int, count);
            let n = spec_n_specs(agents@.len() as int, count, rows);
            &&& (amb ==> (r matches Err(e) && e
                matches WorkmuxError::AmbiguousExpansionRequest(_)))
            &&& (!amb && n == 0 ==> r == Err::<Vec<WorktreeSpec>, WorkmuxError>(
                WorkmuxError::EmptyExpansionResult,
            ))
            &&& (!amb && n > 0 && branch_name_template is None ==> r is Ok)
            &&& (!amb && n > 0 && branch_name_template is Some ==> (r is Ok <==> (forall|i: int|
                0 <= i < n ==> (#[trigger] spec_render(
                    branch_name_template->0@,
                    spec_ctx_at(base, agents@, rows, i),
                )) is Some)))
            &&& (r is Ok ==> !amb && n > 0)
            &&& (r matches Ok(specs) ==> {
                &&& specs@.len() == n
                &&& (forall|i: int|
                    0 <= i < n ==> view_pairs((#[trigger] specs@[i]).template_context@)
                        == spec_ctx_at(base, agents@, rows, i))
                &&& (rows is None && agents@.len() > 0 ==> forall|i: int|
                    0 <= i < n ==> ((#[trigger] specs@[i]).agent matches Some(a) && a@
                        == agents@[i]@))
                &&& (rows is Some || agents@.len() == 0 ==> forall|i: int|
                    0 <= i < n ==> (#[trigger] specs@[i]).agent is None)
                &&& (branch_name_template is None ==> forall|i: int|
                    0 <= i < n ==> (#[trigger] specs@[i]).branch_name@ == spec_default_branch(
                        base,
                        agents@,
                        rows is Some,
                        count,
                        i,
                    ))
                &&& (branch_name_template matches Some(t) ==> forall|i: int|
                    0 <= i < n ==> Some((#[trigger] specs@[i]).branch_name@) == spec_render(
                        t@,
                        spec_ctx_at(base, agents@, rows, i),
                    ))
            })
            &&& (r matches Err(e) ==> (e matches WorkmuxError::AmbiguousExpansionRequest(_) || e
                == WorkmuxError::EmptyExpansionResult || e
                matches WorkmuxError::UndefinedVariable(_)))
        }),
{
    let ghost base = base_branch_name@;
    let ghost rows_view = view_opt_rows(foreach_rows);
    let agents_len: usize = agents.len();
    let ambiguous = match count {
        Some(c) => c > 1 && agents_len > 1,
        None => false,
    };
    proof {
        assert(ambiguous == spec_ambiguous(agents@.len() as int, count));
    }
    if ambiguous {
        return Err(WorkmuxError::AmbiguousExpansionRequest(String::from_str(
            "a repeat count above one cannot be combined with several agent tags",
        )));
    }
    let mut specs: Vec<WorktreeSpec> = Vec::new();
    match foreach_rows {
        Some(rows) => {
            let n: usize = rows.len();
            if n == 0 {
                return Err(WorkmuxError::EmptyExpansionResult);
            }
            let mut i: usize = 0;
            while i < n
                invariant
                    !spec_ambiguous(agents@.len() as int, count),
                    n == rows@.len(),
                    rows_view == Some(rows@),
                    view_opt_rows(foreach_rows) == Some(rows@),
                    base == base_branch_name@,
                    0 <= i <= n,
                    specs@.len() == i,
                    forall|j: int|
                        0 <= j < i ==> view_pairs((#[trigger] specs@[j]).template_context@)
                            == spec_ctx_at(base, agents@, rows_view, j),
                    forall|j: int| 0 <= j < i ==> (#[trigger] specs@[j]).agent is None,
                    branch_name_template is None ==> forall|j: int|
                        0 <= j < i ==> (#[trigger] specs@[j]).branch_name@ == base + "-"@ + dec_str(
                            (j + 1) as nat,
                        ),
                    branch_name_template matches Some(t) ==> forall|j: int|
                        0 <= j < i ==> Some((#[trigger] specs@[j]).branch_name@) == spec_render(
                            t@,
                            spec_ctx_at(base, agents@, rows_view, j),
                        ),
                decreases n - i,
            {
                let idx = usize_to_string(i + 1);
                let mut ctx = clone_pairs(&rows[i]);
                push_binding(&mut ctx, String::from_str("branch"), String::from_str(
                    base_branch_name,
                ));
                push_binding(&mut ctx, String::from_str("index"), idx.clone());
                proof {
                    assert(view_pairs(ctx@) =~= spec_ctx_at(base, agents@, rows_view, i as int));
                }
                let branch_name = match branch_name_template {
                    Some(t) => {
                        match render(t, &ctx) {
                            Ok(s) => s,
                            Err(e) => {
                                proof {
                                    assert(spec_render(
                                        t@,
                                        spec_ctx_at(base, agents@, rows_view, i as int),
                                    ) is None);
                                }
                                return Err(e);
                            },
                        }
                    },
                    None => {
                        let mut bn = String::from_str(base_branch_name);
                        bn.append("-");
                        bn.append(idx.as_str());
                        bn
                    },
                };
                specs.push(WorktreeSpec { branch_name, agent: None, template_context: ctx });
                i = i + 1;
            }
            proof {
                if branch_name_template is Some {
                    assert forall|i: int|
                        0 <= i < n implies (#[trigger] spec_render(
                        branch_name_template->0@,
                        spec_ctx_at(base, agents@, rows_view, i),
                    )) is Some by {
                        assert(Some(specs@[i].branch_name@) == spec_render(
                            branch_name_template->0@,
                            spec_ctx_at(base, agents@, rows_view, i),
                        ));
                    }
                }
            }
            Ok(specs)
        },
        None => {
            if agents_len > 0 {
                let n: usize = agents_len;
                let mut i: usize = 0;
                while i < n
                    invariant
                        !spec_ambiguous(agents@.len() as int, count),
                        n == agents@.len(),
                        rows_view is None,
                        view_opt_rows(foreach_rows) is None,
                        base == base_branch_name@,
                        0 <= i <= n,
                        specs@.len() == i,
                        forall|j: int|
                            0 <= j < i ==> view_pairs((#[trigger] specs@[j]).template_context@)
                                == spec_ctx_at(base, agents@, rows_view, j),
                        forall|j: int|
                            0 <= j < i ==> ((#[trigger] specs@[j]).agent matches Some(a) && a@
                                == agents@[j]@),
                        branch_name_template is None ==> forall|j: int|
                            0 <= j < i ==> (#[trigger] specs@[j]).branch_name@ == base + "-"@
                                + agents@[j]@,
                        branch_name_template matches Some(t) ==> forall|j: int|
                            0 <= j < i ==> Some((#[trigger] specs@[j]).branch_name@) == spec_render(
                                t@,
                                spec_ctx_at(base, agents@, rows_view, j),
                            ),
                    decreases n - i,
                {
                    let idx = usize_to_string(i + 1);
                    let mut ctx: Vec<(String, String)> = Vec::new();
                    push_binding(&mut ctx, String::from_str("branch"), String::from_str(
                        base_branch_name,
                    ));
                    push_binding(&mut ctx, String::from_str("agent"), agents[i].clone());
                    push_binding(&mut ctx, String::from_str("index"), idx.clone());
                    proof {
                        assert(view_pairs(ctx@) =~= spec_ctx_at(
                            base,
                            agents@,
                            rows_view,
                            i as int,
                        ));
                    }
                    let branch_name = match branch_name_template {
                        Some(t) => {
                            match render(t, &ctx) {
                                Ok(s) => s,
                                Err(e) => {
                                    proof {
                                        assert(spec_render(
                                            t@,
                                            spec_ctx_at(base, agents@, rows_view, i as int),
                                        ) is None);
                                    }
                                    return Err(e);
                                },
                            }
                        },
                        None => {
                            let mut bn = String::from_str(base_branch_name);
                            bn.append("-");
                            bn.append(agents[i].as_str());
                            bn
                        },
                    };
                    specs.push(
                        WorktreeSpec {
                            branch_name,
                            agent: Some(agents[i].clone()),
                            template_context: ctx,
                        },
                    );
                    i = i + 1;
                }
                proof {
                    if branch_name_template is Some {
                        assert forall|i: int|
                            0 <= i < n implies (#[trigger] spec_render(
                            branch_name_template->0@,
                            spec_ctx_at(base, agents@, rows_view, i),
                        )) is Some by {
                            assert(Some(specs@[i].branch_name@) == spec_render(
                                branch_name_template->0@,
                                spec_ctx_at(base, agents@, rows_view, i),
                            ));
                        }
                    }
                }
                Ok(specs)
            } else {
                let n: usize = match count {
                    Some(c) => c,
                    None => 1,
                };
                if n == 0 {
                    return Err(WorkmuxError::EmptyExpansionResult);
                }
                let mut i: usize = 0;
                while i < n
                    invariant
                        !spec_ambiguous(agents@.len() as int, count),
                        agents@.len() == 0,
                        rows_view is None,
                        view_opt_rows(foreach_rows) is None,
                        n == spec_n_specs(agents@.len() as int, count, rows_view),
                        base == base_branch_name@,
                        0 <= i <= n,
                        specs@.len() == i,
                        forall|j: int|
                            0 <= j < i ==> view_pairs((#[trigger] specs@[j]).template_context@)
                                == spec_ctx_at(base, agents@, rows_view, j),
                        forall|j: int| 0 <= j < i ==> (#[trigger] specs@[j]).agent is None,
                        branch_name_template is None ==> forall|j: int|
                            0 <= j < i ==> (#[trigger] specs@[j]).branch_name@
                                == spec_default_branch(base, agents@, false, count, j),
                        branch_name_template matches Some(t) ==> forall|j: int|
                            0 <= j < i ==> Some((#[trigger] specs@[j]).branch_name@) == spec_render(
                                t@,
                                spec_ctx_at(base, agents@, rows_view, j),
                            ),
                    decreases n - i,
                {
                    let idx = usize_to_string(i + 1);
                    let mut ctx: Vec<(String, String)> = Vec::new();
                    push_binding(&mut ctx, String::from_str("branch"), String::from_str(
                        base_branch_name,
                    ));
                    push_binding(&mut ctx, String::from_str("index"), idx.clone());
                    proof {
                        assert(view_pairs(ctx@) =~= spec_ctx_at(
                            base,
                            agents@,
                            rows_view,
                            i as int,
                        ));
                    }
                    let branch_name = match branch_name_template {
                        Some(t) => {
                            match render(t, &ctx) {
                                Ok(s) => s,
                                Err(e) => {
                                    proof {
                                        assert(spec_render(
                                            t@,
                                            spec_ctx_at(base, agents@, rows_view, i as int),
                                        ) is None);
                                    }
                                    return Err(e);
                                },
                            }
                        },
                        None => {
                            if n > 1 {
                                let mut bn = String::from_str(base_branch_name);
                                bn.append("-");
                                bn.append(idx.as_str());
                                bn
                            } else {
                                String::from_str(base_branch_name)
                            }
                        },
                    };
                    specs.push(WorktreeSpec { branch_name, agent: None, template_context: ctx });
                    i = i + 1;
                }
                proof {
                    if branch_name_template is Some {
                        assert forall|i: int|
                            0 <= i < n implies (#[trigger] spec_render(
                            branch_name_template->0@,
                            spec_ctx_at(base, agents@, rows_view, i),
                        )) is Some by {
                            assert(Some(specs@[i].branch_name@) == spec_render(
                                branch_name_template->0@,
                                spec_ctx_at(base, agents@, rows_view, i),
                            ));
                        }
                    }
                }
                Ok(specs)
            }
        },
    }
}

/// The effective matrix: rows given on the command line win over rows
/// embedded in a prompt's metadata. The second component reports whether
/// both were present, so the caller can warn about the override.
pub fn determine_foreach_matrix(
    cli_rows: Option<Vec<Vec<(String, String)>>>,
    prompt_rows: Option<Vec<Vec<(String, String)>>>,
) -> (r: (Option<Vec<Vec<(String, String)>>>, bool))
    ensures
        r.1 == (cli_rows is Some && prompt_rows is Some),
        cli_rows is Some ==> r.0 == cli_rows,
        cli_rows is None ==> r.0 == prompt_rows,
{
    let warned = cli_rows.is_some() && prompt_rows.is_some();
    match cli_rows {
        Some(rows) => (Some(rows), warned),
        None => (prompt_rows, warned),
    }
}

/// Refuses request shapes in which several expansion sources or an
/// explicit handle override compete: an explicit name with anything that
/// could produce more than one spec, a rescue together with several agent
/// tags, a repeat count together with several agent tags, and prompt-
/// embedded rows together with agent tags.
pub fn check_expansion_conflicts(
    explicit_name: bool,
    with_changes: bool,
    n_agents: usize,
    count: Option<usize>,
    has_cli_rows: bool,
    has_prompt_rows: bool,
) -> (r: Result<(), WorkmuxError>)
    ensures
        ({
            let multi = n_agents > 1 || (count matches Some(c) && c > 1) || has_cli_rows
                || has_prompt_rows;
            let conflict = (with_changes && n_agents > 1) || (explicit_name && multi) || (
            count is Some && n_agents > 1) || (has_prompt_rows && n_agents > 0);
            &&& (r is Ok <==> !conflict)
            &&& (r matches Err(e) ==> e matches WorkmuxError::AmbiguousExpansionRequest(_))
        }),
{
    if with_changes && n_agents > 1 {
        return Err(WorkmuxError::AmbiguousExpansionRequest(String::from_str(
            "moving uncommitted changes cannot target several agent worktrees",
        )));
    }
    let count_above_one = match count {
        Some(c) => c > 1,
        None => false,
    };
    let multi = n_agents > 1 || count_above_one || has_cli_rows || has_prompt_rows;
    if explicit_name && multi {
        return Err(WorkmuxError::AmbiguousExpansionRequest(String::from_str(
            "an explicit name cannot be combined with multi-worktree generation",
        )));
    }
    if count.is_some() && n_agents > 1 {
        return Err(WorkmuxError::AmbiguousExpansionRequest(String::from_str(
            "a repeat count can be combined with at most one agent tag",
        )));
    }
    if has_prompt_rows && n_agents > 0 {
        return Err(WorkmuxError::AmbiguousExpansionRequest(String::from_str(
            "agent tags and prompt-embedded matrix rows are mutually exclusive",
        )));
    }
    Ok(())
}

/// The key/value binding one `key=value` entry yields: the key is trimmed
/// and must be non-empty; the value is everything after the first `=`.
pub open spec fn spec_parse_pair(p: Seq<char>) -> Option<(Seq<char>, Seq<char>)> {
    let k = first_index_of(p, '=');
    if 0 <= k && k < p.len() {
        let key = trim_spaces(p.subrange(0, k));
        if key.len() == 0 {
            None
        } else {
            Some((key, p.subrange(k + 1, p.len() as int)))
        }
    } else {
        None
    }
}

/// The bindings a row's entries yield; one bad entry spoils the row.
pub open spec fn spec_parse_pairs(segs: Seq<Seq<char>>) -> Option<Seq<(Seq<char>, Seq<char>)>>
    decreases segs.len(),
{
    if segs.len() == 0 {
        Some(Seq::empty())
    } else {
        match spec_parse_pair(segs[0]) {
            None => None,
            Some(pv) => match spec_parse_pairs(segs.skip(1)) {
                None => None,
                Some(rest) => Some(seq![pv] + rest),
            },
        }
    }
}

/// The bindings of one matrix row: `key=value` entries separated by `,`.
pub open spec fn spec_parse_row(r: Seq<char>) -> Option<Seq<(Seq<char>, Seq<char>)>> {
    spec_parse_pairs(split_on(r, ','))
}

/// The rows a matrix argument's segments yield.
pub open spec fn spec_parse_rows(rows: Seq<Seq<char>>) -> Option<Seq<Seq<(Seq<char>, Seq<char>)>>>
    decreases rows.len(),
{
    if rows.len() == 0 {
        Some(Seq::empty())
    } else {
        match spec_parse_row(rows[0]) {
            None => None,
            Some(rv) => match spec_parse_rows(rows.skip(1)) {
                None => None,
                Some(rest) => Some(seq![rv] + rest),
            },
        }
    }
}

/// The matrix a command-line argument describes: rows separated by `;`,
/// `key=value` bindings separated by `,` inside each row.
pub open spec fn spec_parse_matrix(s: Seq<char>) -> Option<Seq<Seq<(Seq<char>, Seq<char>)>>> {
    spec_parse_rows(split_on(s, ';'))
}

/// The views of a list of matrix rows.
pub open spec fn view_rows(v: Seq<Vec<(String, String)>>) -> Seq<Seq<(Seq<char>, Seq<char>)>>
    decreases v.len(),
{
    if v.len() == 0 {
        Seq::empty()
    } else {
        seq![view_pairs(v[0]@)] + view_rows(v.skip(1))
    }
}

/// `view_rows` distributes over appending one row.
proof fn lemma_view_rows_push(v: Seq<Vec<(String, String)>>, e: Vec<(String, String)>)
    ensures
        view_rows(v.push(e)) == view_rows(v) + seq![view_pairs(e@)],
    decreases v.len(),
{
    if v.len() == 0 {
        assert(v.push(e).skip(1) =~= Seq::<Vec<(String, String)>>::empty());
        assert(v.push(e)[0] == e);
        assert(view_rows(v.push(e).skip(1)) =~= Seq::<Seq<(Seq<char>, Seq<char>)>>::empty());
        assert(view_rows(v.push(e)) =~= Seq::<Seq<(Seq<char>, Seq<char>)>>::empty() + seq![
            view_pairs(e@),
        ]);
        assert(view_rows(v) + seq![view_pairs(e@)] =~= Seq::<
            Seq<(Seq<char>, Seq<char>)>,
        >::empty() + seq![view_pairs(e@)]);
    } else {
        assert(v.push(e).skip(1) =~= v.skip(1).push(e));
        lemma_view_rows_push(v.skip(1), e);
        assert(seq![view_pairs(v[0]@)] + (view_rows(v.skip(1)) + seq![view_pairs(e@)]) =~= (seq![
            view_pairs(v[0]@),
        ] + view_rows(v.skip(1))) + seq![view_pairs(e@)]);
    }
}

/// Parses one `key=value` entry.
fn parse_pair(p: &str) -> (r: Result<(String, String), WorkmuxError>)
    ensures
        r is Ok <==> spec_parse_pair(p@) is Some,
        r matches Ok(kv) ==> Some((kv.0@, kv.1@)) == spec_parse_pair(p@),
        r matches Err(e) ==> e matches WorkmuxError::InvalidForeachRow(_),
{
    let n: usize = p.unicode_len();
    let mut i: usize = 0;
    while i < n && p.get_char(i) != '='
        invariant
            n == p@.len(),
            0 <= i <= n,
            forall|j: int| 0 <= j < i ==> p@[j] != '=',
        decreases n - i,
    {
        i = i + 1;
    }
    proof {
        lemma_first_index_of(p@, '=', i as int);
    }
    if i >= n {
        return Err(WorkmuxError::InvalidForeachRow(String::from_str(p)));
    }
    let key_part = p.substring_char(0, i);
    let key = strip_space_ends(key_part);
    proof {
        assert(key_part@ =~= p@.subrange(0, i as int));
    }
    if key.unicode_len() == 0 {
        return Err(WorkmuxError::InvalidForeachRow(String::from_str(p)));
    }
    let value = p.substring_char(i + 1, n);
    proof {
        assert(value@ =~= p@.subrange(i + 1, n as int));
    }
    Ok((String::from_str(key), String::from_str(value)))
}

/// Parses one matrix row of comma-separated `key=value` entries.
fn parse_row(row_text: &str) -> (r: Result<Vec<(String, String)>, WorkmuxError>)
    ensures
        r is Ok <==> spec_parse_row(row_text@) is Some,
        r matches Ok(v) ==> Some(view_pairs(v@)) == spec_parse_row(row_text@),
        r matches Err(e) ==> e matches WorkmuxError::InvalidForeachRow(_),
{
    let segs = split_on_char(row_text, ',');
    let ghost segs_v = view_strs(segs@);
    proof {
        crate::strutil::lemma_view_strs_index(segs@);
        assert(segs_v.skip(0) =~= segs_v);
    }
    let n: usize = segs.len();
    let mut out: Vec<(String, String)> = Vec::new();
    let mut i: usize = 0;
    proof {
        assert(view_pairs(out@) =~= Seq::<(Seq<char>, Seq<char>)>::empty());
    }
    while i < n
        invariant
            n == segs@.len(),
            segs_v == view_strs(segs@),
            segs_v == split_on(row_text@, ','),
            segs_v.len() == n,
            forall|j: int| 0 <= j < n ==> #[trigger] segs_v[j] == segs@[j]@,
            0 <= i <= n,
            spec_parse_pairs(segs_v) == (match spec_parse_pairs(segs_v.skip(i as int)) {
                None => None,
                Some(rest) => Some(view_pairs(out@) + rest),
            }),
        decreases n - i,
    {
        let ghost rest_segs = segs_v.skip(i as int);
        proof {
            assert(rest_segs[0] == segs@[i as int]@);
            assert(rest_segs.skip(1) =~= segs_v.skip(i + 1));
        }
        let pair = match parse_pair(segs[i].as_str()) {
            Ok(kv) => kv,
            Err(e) => {
                proof {
                    assert(spec_parse_pairs(rest_segs) is None);
                }
                return Err(e);
            },
        };
        let ghost gp: (String, String) = (pair.0, pair.1);
        proof {
            lemma_view_pairs_push(out@, gp);
            match spec_parse_pairs(segs_v.skip(i + 1)) {
                None => {},
                Some(rest) => {
                    assert((view_pairs(out@) + seq![(gp.0@, gp.1@)]) + rest =~= view_pairs(out@)
                        + (seq![(gp.0@, gp.1@)] + rest));
                },
            }
        }
        out.push((pair.0, pair.1));
        i = i + 1;
    }
    proof {
        assert(segs_v.skip(n as int) =~= Seq::<Seq<char>>::empty());
        assert(view_pairs(out@) + Seq::<(Seq<char>, Seq<char>)>::empty() =~= view_pairs(out@));
    }
    Ok(out)
}

/// Parses a command-line matrix argument: rows separated by `;`, each row
/// a list of `key=value` bindings separated by `,`. An entry without `=`
/// or with an empty key fails, naming the bad entry.
pub fn parse_foreach_matrix(text: &str) -> (r: Result<
    Vec<Vec<(String, String)>>,
    WorkmuxError,
>)
    ensures
        r is Ok <==> spec_parse_matrix(text@) is Some,
        r matches Ok(rows) ==> Some(view_rows(rows@)) == spec_parse_matrix(text@),
        r matches Err(e) ==> e matches WorkmuxError::InvalidForeachRow(_),
{
    let row_texts = split_on_char(text, ';');
    let ghost rows_v = view_strs(row_texts@);
    proof {
        crate::strutil::lemma_view_strs_index(row_texts@);
        assert(rows_v.skip(0) =~= rows_v);
    }
    let n: usize = row_texts.len();
    let mut out: Vec<Vec<(String, String)>> = Vec::new();
    let mut i: usize = 0;
    proof {
        assert(view_rows(out@) =~= Seq::<Seq<(Seq<char>, Seq<char>)>>::empty());
    }
    while i < n
        invariant
            n == row_texts@.len(),
            rows_v == view_strs(row_texts@),
            rows_v == split_on(text@, ';'),
            rows_v.len() == n,
            forall|j: int| 0 <= j < n ==> #[trigger] rows_v[j] == row_texts@[j]@,
            0 <= i <= n,
            spec_parse_rows(rows_v) == (match spec_parse_rows(rows_v.skip(i as int)) {
                None => None,
                Some(rest) => Some(view_rows(out@) + rest),
            }),
        decreases n - i,
    {
        let ghost rest_rows = rows_v.skip(i as int);
        proof {
            assert(rest_rows[0] == row_texts@[i as int]@);
            assert(rest_rows.skip(1) =~= rows_v.skip(i + 1));
        }
        let row = match parse_row(row_texts[i].as_str()) {
            Ok(v) => v,
            Err(e) => {
                proof {
                    assert(spec_parse_rows(rest_rows) is None);
                }
                return Err(e);
            },
        };
        let ghost grow = row;
        proof {
            lemma_view_rows_push(out@, grow);
            match spec_parse_rows(rows_v.skip(i + 1)) {
                None => {},
                Some(rest) => {
                    assert((view_rows(out@) + seq![view_pairs(grow@)]) + rest =~= view_rows(out@)
                        + (seq![view_pairs(grow@)] + rest));
                },
            }
        }
        out.push(row);
        i = i + 1;
    }
    proof {
        assert(rows_v.skip(n as int) =~= Seq::<Seq<char>>::empty());
        assert(view_rows(out@) + Seq::<Seq<(Seq<char>, Seq<char>)>>::empty() =~= view_rows(out@));
    }
    Ok(out)
}

} // verus!
