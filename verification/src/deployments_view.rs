//! The deployments panel: deployments grouped by environment, production
//! first, the most recent first in each group.

use vstd::prelude::*;

use crate::api::DeploymentInfo;
use crate::format::{sha_shown, short_sha, truncatable, truncate, truncated};
use crate::navigation::contains_name;
use crate::panel::{sty, Color, PanelContext, Style};
use crate::screen::{blank, blank_line, line_of, lines_view, lv, one, one_line, push_line, push_span, span, span_of, sv, Line, LineView, Span, SpanView};
use crate::status::{deployment_status_style, env_priority, spec_deployment_status_style, spec_env_priority};
use crate::text::{less_text, text_less, lemma_text_less_irreflexive, lemma_text_less_transitive, append, byte_len, byte_prefix, cuts_at, decimal, decimal_string, owned, push_char, to_uppercase, uppercase};

verus! {

/// Puts a deployment into a list sorted most recent first, after those
/// created at the same time or later.
pub open spec fn insert_newest_first(s: Seq<DeploymentInfo>, d: DeploymentInfo) -> Seq<DeploymentInfo>
    decreases s.len(),
{
    if s.len() == 0 {
        seq![d]
    } else if text_less(s[0].created_at@, d.created_at@) {
        seq![d] + s
    } else {
        seq![s[0]] + insert_newest_first(s.drop_first(), d)
    }
}

/// The deployments sorted most recent first; those created at the same time
/// keep their order (a stable sort on the creation time, descending).
pub open spec fn newest_first(s: Seq<DeploymentInfo>) -> Seq<DeploymentInfo>
    decreases s.len(),
{
    if s.len() == 0 {
        s
    } else {
        insert_newest_first(newest_first(s.drop_last()), s.last())
    }
}

proof fn lemma_insert_at(s: Seq<DeploymentInfo>, d: DeploymentInfo, k: int)
    requires
        0 <= k <= s.len(),
        forall|j: int| 0 <= j < k ==> !text_less(#[trigger] s[j].created_at@, d.created_at@),
        k == s.len() || text_less(s[k].created_at@, d.created_at@),
    ensures
        insert_newest_first(s, d) == s.insert(k, d),
    decreases k,
{
    if k == 0 {
        if s.len() == 0 {
            assert(s.insert(0, d) =~= seq![d]);
        } else {
            assert(s.insert(0, d) =~= seq![d] + s);
        }
    } else {
        assert(!text_less(s[0].created_at@, d.created_at@));
        let t = s.drop_first();
        assert forall|j: int| 0 <= j < k - 1 implies !text_less(#[trigger] t[j].created_at@, d.created_at@) by {
            assert(t[j] == s[j + 1]);
        }
        lemma_insert_at(t, d, k - 1);
        assert(seq![s[0]] + t.insert(k - 1, d) =~= s.insert(k, d));
    }
}

/// Whether a deployment occurs in the list after the insertion.
pub proof fn lemma_insert_contains(s: Seq<DeploymentInfo>, d: DeploymentInfo, x: DeploymentInfo)
    ensures
        insert_newest_first(s, d).contains(x) <==> (s.contains(x) || x == d),
        insert_newest_first(s, d).len() == s.len() + 1,
    decreases s.len(),
{
    if s.len() == 0 {
        assert(insert_newest_first(s, d) =~= seq![d]);
        assert(insert_newest_first(s, d)[0] == d);
    } else if text_less(s[0].created_at@, d.created_at@) {
        let r = seq![d] + s;
        if s.contains(x) {
            let j = choose|j: int| 0 <= j < s.len() && s[j] == x;
            assert(r[j + 1] == x);
        }
        if r.contains(x) && x != d {
            let j = choose|j: int| 0 <= j < r.len() && r[j] == x;
            assert(s[j - 1] == x);
        }
        assert(r[0] == d);
    } else {
        let t = s.drop_first();
        lemma_insert_contains(t, d, x);
        let ins = insert_newest_first(t, d);
        let r = seq![s[0]] + ins;
        assert(r[0] == s[0]);
        if s.contains(x) {
            let j = choose|j: int| 0 <= j < s.len() && s[j] == x;
            if j > 0 {
                assert(t[j - 1] == x);
                let k = choose|k: int| 0 <= k < ins.len() && ins[k] == x;
                assert(r[k + 1] == x);
            }
        }
        if x == d {
            let k = choose|k: int| 0 <= k < ins.len() && ins[k] == x;
            assert(r[k + 1] == x);
        }
        if r.contains(x) {
            let j = choose|j: int| 0 <= j < r.len() && r[j] == x;
            if j > 0 {
                assert(ins[j - 1] == x);
                if t.contains(x) {
                    let k = choose|k: int| 0 <= k < t.len() && t[k] == x;
                    assert(s[k + 1] == x);
                }
            }
        }
    }
}

/// Sorting keeps exactly the deployments there were.
pub proof fn lemma_newest_first_contains(s: Seq<DeploymentInfo>, x: DeploymentInfo)
    ensures
        newest_first(s).contains(x) <==> s.contains(x),
        newest_first(s).len() == s.len(),
    decreases s.len(),
{
    if s.len() > 0 {
        lemma_newest_first_contains(s.drop_last(), x);
        lemma_insert_contains(newest_first(s.drop_last()), s.last(), x);
        if s.contains(x) && x != s.last() {
            let j = choose|j: int| 0 <= j < s.len() && s[j] == x;
            assert(s.drop_last()[j] == x);
        }
        if s.drop_last().contains(x) {
            let j = choose|j: int| 0 <= j < s.drop_last().len() && s.drop_last()[j] == x;
            assert(s[j] == x);
        }
        assert(s[s.len() - 1] == s.last());
    }
}

impl DeploymentInfo {
    /// A copy of the deployment.
    pub fn copy(&self) -> (r: DeploymentInfo)
        ensures
            r == *self,
    {
        DeploymentInfo {
            id: self.id,
            environment: self.environment.clone(),
            sha: self.sha.clone(),
            ref_name: self.ref_name.clone(),
            status: self.status.clone(),
            created_at: self.created_at.clone(),
            creator: self.creator.clone(),
        }
    }
}

fn insert_by_date(v: &mut Vec<DeploymentInfo>, d: DeploymentInfo)
    ensures
        final(v)@ == insert_newest_first(old(v)@, d),
{
    let mut k: usize = 0;
    while k < v.len()
        invariant
            k <= v@.len(),
            forall|j: int| 0 <= j < k ==> !text_less(#[trigger] v@[j].created_at@, d.created_at@),
        ensures
            k <= v@.len(),
            forall|j: int| 0 <= j < k ==> !text_less(#[trigger] v@[j].created_at@, d.created_at@),
            k == v@.len() || text_less(v@[k as int].created_at@, d.created_at@),
        decreases v@.len() - k,
    {
        if less_text(v[k].created_at.as_str(), d.created_at.as_str()) {
            break;
        }
        k = k + 1;
    }
    proof {
        lemma_insert_at(v@, d, k as int);
    }
    v.insert(k, d);
}

/// The deployments sorted most recent first.
fn sort_by_date(v: &Vec<DeploymentInfo>) -> (r: Vec<DeploymentInfo>)
    ensures
        r@ == newest_first(v@),
{
    let mut r: Vec<DeploymentInfo> = Vec::new();
    let mut i: usize = 0;
    while i < v.len()
        invariant
            i <= v@.len(),
            r@ == newest_first(v@.take(i as int)),
        decreases v@.len() - i,
    {
        insert_by_date(&mut r, v[i].copy());
        assert(v@.take(i + 1).drop_last() =~= v@.take(i as int));
        i = i + 1;
    }
    assert(v@.take(v@.len() as int) =~= v@);
    r
}

/// The environments of the deployments, each once, in the order in which
/// they first occur.
pub open spec fn env_names(deps: Seq<DeploymentInfo>) -> Seq<Seq<char>>
    decreases deps.len(),
{
    if deps.len() == 0 {
        Seq::empty()
    } else {
        let e = env_names(deps.drop_last());
        if e.contains(deps.last().environment@) {
            e
        } else {
            e.push(deps.last().environment@)
        }
    }
}

/// The environments whose priority is below `p`, by priority, each
/// priority keeping their order.
pub open spec fn by_priority(envs: Seq<Seq<char>>, p: nat) -> Seq<Seq<char>>
    decreases p,
{
    if p == 0 {
        Seq::empty()
    } else {
        by_priority(envs, (p - 1) as nat) + envs.filter(|n: Seq<char>| spec_env_priority(n) == (p - 1) as u8)
    }
}

/// The order of the environments: by priority, then by first occurrence.
pub open spec fn env_order(deps: Seq<DeploymentInfo>) -> Seq<Seq<char>> {
    by_priority(env_names(deps), 4)
}

/// Whether a deployment is to the given environment.
pub open spec fn at_env(env: Seq<char>) -> spec_fn(DeploymentInfo) -> bool {
    |d: DeploymentInfo| d.environment@ == env
}

/// The deployments to one environment, most recent first.
pub open spec fn env_deployments(deps: Seq<DeploymentInfo>, env: Seq<char>) -> Seq<DeploymentInfo> {
    newest_first(deps.filter(at_env(env)))
}

/// One environment and its deployments.
#[derive(Debug)]
pub struct EnvGroup {
    pub environment: String,
    pub deployments: Vec<DeploymentInfo>,
}

/// A group as mathematical values.
pub struct EnvGroupView {
    pub environment: Seq<char>,
    pub deployments: Seq<DeploymentInfo>,
}

impl View for EnvGroup {
    type V = EnvGroupView;

    open spec fn view(&self) -> EnvGroupView {
        EnvGroupView { environment: self.environment@, deployments: self.deployments@ }
    }
}

pub open spec fn groups_view(g: Seq<EnvGroup>) -> Seq<EnvGroupView> {
    g.map_values(|x: EnvGroup| x@)
}

/// The deployments grouped by environment: the environments by priority
/// (production, staging, development, the rest), those of one priority in
/// the order in which they first occur, and the deployments of each most
/// recent first.
pub open spec fn spec_group_by_environment(deps: Seq<DeploymentInfo>) -> Seq<EnvGroupView> {
    let order = env_order(deps);
    Seq::new(order.len(), |i: int| EnvGroupView { environment: order[i], deployments: env_deployments(deps, order[i]) })
}

fn environment_names(deps: &[DeploymentInfo]) -> (r: Vec<String>)
    ensures
        r.deep_view() == env_names(deps@),
{
    let mut r: Vec<String> = Vec::new();
    let mut i: usize = 0;
    while i < deps.len()
        invariant
            i <= deps@.len(),
            r.deep_view() == env_names(deps@.take(i as int)),
        decreases deps@.len() - i,
    {
        let env = &deps[i].environment;
        assert(deps@.take(i + 1).drop_last() =~= deps@.take(i as int));
        assert(deps@.take(i + 1).last() == deps@[i as int]);
        if !contains_name(&r, env.as_str()) {
            let ghost before = r.deep_view();
            r.push(env.clone());
            assert(r.deep_view() =~= before.push(env@));
        }
        i = i + 1;
    }
    assert(deps@.take(deps@.len() as int) =~= deps@);
    r
}

fn ordered_environments(names: &Vec<String>) -> (r: Vec<String>)
    ensures
        r.deep_view() == by_priority(names.deep_view(), 4),
{
    let ghost nv = names.deep_view();
    let mut r: Vec<String> = Vec::new();
    let mut p: u8 = 0;
    while p < 4
        invariant
            p <= 4,
            nv == names.deep_view(),
            r.deep_view() == by_priority(nv, p as nat),
        decreases 4 - p,
    {
        let ghost f = |n: Seq<char>| spec_env_priority(n) == p;
        let ghost start = r.deep_view();
        let mut j: usize = 0;
        while j < names.len()
            invariant
                j <= names@.len(),
                nv == names.deep_view(),
                f == (|n: Seq<char>| spec_env_priority(n) == p),
                r.deep_view() == start + nv.take(j as int).filter(f),
            decreases names@.len() - j,
        {
            proof {
                nv.take(j as int).lemma_filter_push(nv[j as int], f);
                assert(nv.take(j + 1) =~= nv.take(j as int).push(nv[j as int]));
            }
            if env_priority(names[j].as_str()) == p {
                let ghost before = r.deep_view();
                r.push(names[j].clone());
                assert(r.deep_view() =~= before.push(nv[j as int]));
            }
            j = j + 1;
        }
        assert(nv.take(nv.len() as int) =~= nv);
        assert(by_priority(nv, (p + 1) as nat) == by_priority(nv, p as nat) + nv.filter(f));
        p = p + 1;
    }
    r
}

fn deployments_to(deps: &[DeploymentInfo], env: &str) -> (r: Vec<DeploymentInfo>)
    ensures
        r@ == deps@.filter(at_env(env@)),
{
    let ghost f = at_env(env@);
    let mut r: Vec<DeploymentInfo> = Vec::new();
    let mut i: usize = 0;
    while i < deps.len()
        invariant
            i <= deps@.len(),
            f == at_env(env@),
            r@ == deps@.take(i as int).filter(f),
        decreases deps@.len() - i,
    {
        proof {
            deps@.take(i as int).lemma_filter_push(deps@[i as int], f);
            assert(deps@.take(i + 1) =~= deps@.take(i as int).push(deps@[i as int]));
        }
        if crate::text::str_eq(deps[i].environment.as_str(), env) {
            r.push(deps[i].copy());
        }
        i = i + 1;
    }
    assert(deps@.take(deps@.len() as int) =~= deps@);
    r
}

/// Groups the deployments by environment.
pub fn group_by_environment(deployments: &[DeploymentInfo]) -> (r: Vec<EnvGroup>)
    ensures
        groups_view(r@) == spec_group_by_environment(deployments@),
{
    let names = environment_names(deployments);
    let order = ordered_environments(&names);
    let ghost ov = order.deep_view();
    let mut r: Vec<EnvGroup> = Vec::new();
    let mut i: usize = 0;
    while i < order.len()
        invariant
            i <= order@.len(),
            ov == order.deep_view(),
            ov == env_order(deployments@),
            groups_view(r@) == Seq::new(
                i as nat,
                |k: int| EnvGroupView { environment: ov[k], deployments: env_deployments(deployments@, ov[k]) },
            ),
        decreases order@.len() - i,
    {
        let env = order[i].as_str();
        let members = deployments_to(deployments, env);
        let sorted = sort_by_date(&members);
        let ghost before = r@;
        let g = EnvGroup { environment: order[i].clone(), deployments: sorted };
        assert(ov[i as int] == order@[i as int]@);
        assert(g@ == EnvGroupView { environment: ov[i as int], deployments: env_deployments(deployments@, ov[i as int]) });
        r.push(g);
        assert(groups_view(r@) =~= groups_view(before).push(g@));
        assert(groups_view(r@) =~= Seq::new(
            (i + 1) as nat,
            |k: int| EnvGroupView { environment: ov[k], deployments: env_deployments(deployments@, ov[k]) },
        ));
        i = i + 1;
    }
    r
}

} // verus!

verus! {

/// Whether a deployment can be shown: its ref cut to fifteen bytes, its
/// hash to seven, and its environment's width counted in a `u16`.
pub open spec fn deployment_fits(d: DeploymentInfo) -> bool {
    &&& truncatable(d.ref_name@, 15)
    &&& cuts_at(d.sha@, sha_shown(d.sha@) as int)
    &&& (byte_len(d.environment@) as u16) + 15 <= u16::MAX
}

/// How many rule characters follow an environment's heading: what is left
/// of the width after the heading, at most twenty.
pub open spec fn env_rule_len(env: Seq<char>, width: u16) -> nat {
    let used = (byte_len(env) as u16) + 15;
    let room: int = if width >= used {
        width - used
    } else {
        0
    };
    if room > 20 {
        20
    } else {
        room as nat
    }
}

pub open spec fn dark(text: Seq<char>) -> SpanView {
    sv(text, sty(Some(Color::DarkGray), None, false))
}

/// The heading of an environment: its name in capitals, the number of its
/// deployments, and a rule.
pub open spec fn env_heading(env: Seq<char>, count: nat, width: u16) -> LineView {
    lv(
        seq![
            dark("━━━ "@),
            sv(uppercase(env), sty(Some(Color::Cyan), None, true)),
            dark(" ("@ + decimal(count) + ") "@),
            dark(Seq::new(env_rule_len(env, width), |i: int| '━')),
        ],
        sty(None, None, false),
    )
}

/// The line of a deployment: a marker when selected, the status icon, the
/// ref (bright for the most recent of the environment), the short hash,
/// and the creator when the panel is wide enough.
pub open spec fn deployment_line(d: DeploymentInfo, selected: bool, latest: bool, ctx: PanelContext) -> LineView {
    let (icon, color) = spec_deployment_status_style(d.status@);
    let base = seq![
        if selected {
            sv("▶ "@, sty(Some(Color::Yellow), None, false))
        } else {
            sv("  "@, sty(None, None, false))
        },
        sv(icon + " "@, sty(Some(color), None, false)),
        sv(
            truncated(d.ref_name@, 15),
            if latest {
                sty(Some(Color::White), None, true)
            } else {
                sty(Some(Color::Gray), None, false)
            },
        ),
        dark(" "@ + byte_prefix(d.sha@, sha_shown(d.sha@) as int)),
    ];
    lv(
        if !ctx.spec_is_compact() && ctx.area.width > 50 {
            base.push(dark(" by "@ + d.creator@))
        } else {
            base
        },
        if selected {
            sty(None, Some(Color::DarkGray), false)
        } else {
            sty(None, None, false)
        },
    )
}

/// The lines of one group, whose first deployment has flat position
/// `first`.
pub open spec fn group_lines(g: EnvGroupView, first: int, selected: usize, ctx: PanelContext) -> Seq<LineView> {
    seq![env_heading(g.environment, g.deployments.len(), ctx.area.width)] + Seq::new(
        g.deployments.len(),
        |i: int| deployment_line(g.deployments[i], first + i == selected, i == 0, ctx),
    ) + seq![blank()]
}

/// The number of deployments in the groups.
pub open spec fn groups_size(gs: Seq<EnvGroupView>) -> int
    decreases gs.len(),
{
    if gs.len() == 0 {
        0
    } else {
        groups_size(gs.drop_last()) + gs.last().deployments.len()
    }
}

/// The lines of all the groups.
pub open spec fn groups_lines(gs: Seq<EnvGroupView>, selected: usize, ctx: PanelContext) -> Seq<LineView>
    decreases gs.len(),
{
    if gs.len() == 0 {
        Seq::empty()
    } else {
        groups_lines(gs.drop_last(), selected, ctx) + group_lines(gs.last(), groups_size(gs.drop_last()), selected, ctx)
    }
}

/// The lines of the deployments panel: a message while an empty list loads
/// or when there are none, else the groups, the deployment at flat position
/// `selected` marked.
pub open spec fn spec_deployments_panel_lines(
    ctx: PanelContext,
    deps: Seq<DeploymentInfo>,
    selected: usize,
    loading: bool,
) -> Seq<LineView> {
    if loading && deps.len() == 0 {
        seq![one("Loading deployments..."@, sty(Some(Color::DarkGray), None, false))]
    } else if deps.len() == 0 {
        seq![one("No deployments found"@, sty(Some(Color::DarkGray), None, false))]
    } else {
        groups_lines(spec_group_by_environment(deps), selected, ctx)
    }
}

fn heading_line(env: &str, count: usize, width: u16) -> (r: Line)
    requires
        (byte_len(env@) as u16) + 15 <= u16::MAX,
    ensures
        r@ == env_heading(env@, count as nat, width),
{
    let mut spans: Vec<Span> = Vec::new();
    push_span(&mut spans, span("━━━ ", Style::fg_only(Color::DarkGray)));
    push_span(&mut spans, span_of(to_uppercase(env), Style::fg_bold(Color::Cyan)));
    let mut c = owned(" (");
    let d = decimal_string(count as u64);
    append(&mut c, d.as_str());
    append(&mut c, ") ");
    push_span(&mut spans, span_of(c, Style::fg_only(Color::DarkGray)));
    let used: u16 = (env.len() as u16) + 15;
    let room: u16 = if width >= used {
        width - used
    } else {
        0
    };
    let n: u16 = if room > 20 {
        20
    } else {
        room
    };
    let mut rule = String::new();
    let mut k: u16 = 0;
    while k < n
        invariant
            k <= n,
            rule@ == Seq::new(k as nat, |i: int| '━'),
        decreases n - k,
    {
        push_char(&mut rule, '━');
        assert(rule@ =~= Seq::new((k + 1) as nat, |i: int| '━'));
        k = k + 1;
    }
    push_span(&mut spans, span_of(rule, Style::fg_only(Color::DarkGray)));
    let r = line_of(spans, Style::plain());
    assert(r@.spans =~= env_heading(env@, count as nat, width).spans);
    r
}

fn deployment_row(d: &DeploymentInfo, selected: bool, latest: bool, ctx: &PanelContext) -> (r: Line)
    requires
        deployment_fits(*d),
    ensures
        r@ == deployment_line(*d, selected, latest, *ctx),
{
    let (icon, color) = deployment_status_style(d.status.as_str());
    let mut spans: Vec<Span> = Vec::new();
    if selected {
        push_span(&mut spans, span("▶ ", Style::fg_only(Color::Yellow)));
    } else {
        push_span(&mut spans, span("  ", Style::plain()));
    }
    let mut t = owned(icon);
    append(&mut t, " ");
    push_span(&mut spans, span_of(t, Style::fg_only(color)));
    let ref_style = if latest {
        Style::fg_bold(Color::White)
    } else {
        Style::fg_only(Color::Gray)
    };
    push_span(&mut spans, span_of(truncate(d.ref_name.as_str(), 15), ref_style));
    let mut h = owned(" ");
    append(&mut h, short_sha(d.sha.as_str()));
    push_span(&mut spans, span_of(h, Style::fg_only(Color::DarkGray)));
    if !ctx.is_compact() && ctx.area.width > 50 {
        let mut by = owned(" by ");
        append(&mut by, d.creator.as_str());
        push_span(&mut spans, span_of(by, Style::fg_only(Color::DarkGray)));
    }
    let style = if selected {
        Style::bg_only(Color::DarkGray)
    } else {
        Style::plain()
    };
    let r = line_of(spans, style);
    assert(r@.spans =~= deployment_line(*d, selected, latest, *ctx).spans);
    r
}

/// Every environment listed has a deployment to it.
proof fn lemma_env_names_sound(deps: Seq<DeploymentInfo>, e: Seq<char>)
    requires
        env_names(deps).contains(e),
    ensures
        exists|k: int| 0 <= k < deps.len() && (#[trigger] deps[k]).environment@ == e,
    decreases deps.len(),
{
    let prev = env_names(deps.drop_last());
    if prev.contains(e) {
        lemma_env_names_sound(deps.drop_last(), e);
        let k = choose|k: int| 0 <= k < deps.drop_last().len() && (#[trigger] deps.drop_last()[k]).environment@ == e;
        assert(deps[k] == deps.drop_last()[k]);
    } else {
        assert(env_names(deps) == prev.push(deps.last().environment@));
        let j = choose|j: int| 0 <= j < env_names(deps).len() && env_names(deps)[j] == e;
        assert(j == prev.len());
        assert(deps[deps.len() - 1].environment@ == e);
    }
}

/// Ordering by priority keeps only listed environments.
proof fn lemma_by_priority_sound(envs: Seq<Seq<char>>, p: nat, e: Seq<char>)
    requires
        by_priority(envs, p).contains(e),
    ensures
        envs.contains(e),
    decreases p,
{
    if p > 0 {
        let f = |n: Seq<char>| spec_env_priority(n) == (p - 1) as u8;
        let a = by_priority(envs, (p - 1) as nat);
        let b = envs.filter(f);
        let j = choose|j: int| 0 <= j < (a + b).len() && (a + b)[j] == e;
        if j < a.len() {
            assert(a[j] == e);
            lemma_by_priority_sound(envs, (p - 1) as nat, e);
        } else {
            assert(b[j - a.len()] == e);
            envs.lemma_filter_contains_rev(f, e);
        }
    }
}

/// The deployments of every group, and its environment, can be shown when
/// all the deployments can.
proof fn lemma_group_fits(deps: Seq<DeploymentInfo>, g: int)
    requires
        forall|i: int| 0 <= i < deps.len() ==> deployment_fits(#[trigger] deps[i]),
        0 <= g < spec_group_by_environment(deps).len(),
    ensures
        forall|k: int|
            0 <= k < spec_group_by_environment(deps)[g].deployments.len() ==> deployment_fits(
                #[trigger] spec_group_by_environment(deps)[g].deployments[k],
            ),
        (byte_len(spec_group_by_environment(deps)[g].environment) as u16) + 15 <= u16::MAX,
{
    let order = env_order(deps);
    let env = order[g];
    assert(spec_group_by_environment(deps)[g].environment == env);
    let members = deps.filter(at_env(env));
    assert forall|k: int| 0 <= k < spec_group_by_environment(deps)[g].deployments.len() implies deployment_fits(
        #[trigger] spec_group_by_environment(deps)[g].deployments[k],
    ) by {
        let d = spec_group_by_environment(deps)[g].deployments[k];
        assert(newest_first(members)[k] == d);
        lemma_newest_first_contains(members, d);
        deps.lemma_filter_contains_rev(at_env(env), d);
        let i = choose|i: int| 0 <= i < deps.len() && deps[i] == d;
        assert(deployment_fits(deps[i]));
    }
    assert(order.contains(env));
    lemma_by_priority_sound(env_names(deps), 4, env);
    lemma_env_names_sound(deps, env);
    let k = choose|k: int| 0 <= k < deps.len() && (#[trigger] deps[k]).environment@ == env;
    assert(deployment_fits(deps[k]));
}

fn push_group_lines(lines: &mut Vec<Line>, group: &EnvGroup, first: usize, selected: usize, ctx: &PanelContext) -> (next:
    usize)
    requires
        forall|k: int| 0 <= k < group.deployments@.len() ==> deployment_fits(#[trigger] group.deployments@[k]),
        (byte_len(group.environment@) as u16) + 15 <= u16::MAX,
        first <= old(lines)@.len(),
    ensures
        lines_view(final(lines)@) == lines_view(old(lines)@) + group_lines(group@, first as int, selected, *ctx),
        next == first + group.deployments@.len(),
        next <= final(lines)@.len(),
{
    let ghost gg = group@;
    let ghost start = lines_view(lines@);
    push_line(lines, heading_line(group.environment.as_str(), group.deployments.len(), ctx.area.width));
    let mut flat = first;
    let mut i: usize = 0;
    while i < group.deployments.len()
        invariant
            i <= gg.deployments.len(),
            gg == group@,
            forall|k: int| 0 <= k < group.deployments@.len() ==> deployment_fits(#[trigger] group.deployments@[k]),
            flat == first + i,
            flat < lines@.len(),
            lines_view(lines@) == start + seq![env_heading(gg.environment, gg.deployments.len(), ctx.area.width)]
                + Seq::new(i as nat, |k: int| deployment_line(gg.deployments[k], first + k == selected, k == 0, *ctx)),
        decreases gg.deployments.len() - i,
    {
        push_line(lines, deployment_row(&group.deployments[i], flat == selected, i == 0, ctx));
        let n = lines.len();
        assert(Seq::new((i + 1) as nat, |k: int| deployment_line(gg.deployments[k], first + k == selected, k == 0, *ctx))
            =~= Seq::new(i as nat, |k: int| deployment_line(gg.deployments[k], first + k == selected, k == 0, *ctx)).push(
            deployment_line(gg.deployments[i as int], first + i == selected, i == 0, *ctx),
        ));
        flat = flat + 1;
        i = i + 1;
    }
    push_line(lines, blank_line());
    assert(lines_view(lines@) =~= start + group_lines(gg, first as int, selected, *ctx));
    flat
}

/// The lines of the deployments panel.
pub fn deployments_panel_lines(ctx: &PanelContext, deployments: &[DeploymentInfo], selected: usize, loading: bool) -> (r:
    Vec<Line>)
    requires
        forall|i: int| 0 <= i < deployments@.len() ==> deployment_fits(#[trigger] deployments@[i]),
    ensures
        lines_view(r@) == spec_deployments_panel_lines(*ctx, deployments@, selected, loading),
{
    let mut lines: Vec<Line> = Vec::new();
    if loading && deployments.len() == 0 {
        push_line(&mut lines, one_line("Loading deployments...", Style::fg_only(Color::DarkGray)));
        assert(lines_view(lines@) =~= seq![one("Loading deployments..."@, sty(Some(Color::DarkGray), None, false))]);
        return lines;
    }
    if deployments.len() == 0 {
        push_line(&mut lines, one_line("No deployments found", Style::fg_only(Color::DarkGray)));
        assert(lines_view(lines@) =~= seq![one("No deployments found"@, sty(Some(Color::DarkGray), None, false))]);
        return lines;
    }
    let groups = group_by_environment(deployments);
    let ghost gv = groups_view(groups@);
    let mut flat: usize = 0;
    let mut g: usize = 0;
    while g < groups.len()
        invariant
            g <= groups@.len(),
            gv == groups_view(groups@),
            gv == spec_group_by_environment(deployments@),
            forall|i: int| 0 <= i < deployments@.len() ==> deployment_fits(#[trigger] deployments@[i]),
            flat == groups_size(gv.take(g as int)),
            flat <= lines@.len(),
            lines_view(lines@) == groups_lines(gv.take(g as int), selected, *ctx),
        decreases groups@.len() - g,
    {
        let group = &groups[g];
        proof {
            lemma_group_fits(deployments@, g as int);
            assert(gv[g as int] == group@);
            assert forall|k: int| 0 <= k < group.deployments@.len() implies deployment_fits(
                #[trigger] group.deployments@[k],
            ) by {
                assert(group.deployments@[k] == spec_group_by_environment(deployments@)[g as int].deployments[k]);
            }
        }
        flat = push_group_lines(&mut lines, group, flat, selected, ctx);
        assert(gv.take(g + 1).drop_last() =~= gv.take(g as int));
        assert(gv.take(g + 1).last() == gv[g as int]);
        g = g + 1;
    }
    assert(gv.take(gv.len() as int) =~= gv);
    lines
}

} // verus!

verus! {

/// Deployments sorted most recent first.
pub open spec fn newest_sorted(s: Seq<DeploymentInfo>) -> bool {
    forall|i: int, j: int| 0 <= i < j < s.len() ==> !text_less(s[i].created_at@, s[j].created_at@)
}

proof fn lemma_insert_sorted(t: Seq<DeploymentInfo>, d: DeploymentInfo)
    requires
        newest_sorted(t),
    ensures
        newest_sorted(insert_newest_first(t, d)),
    decreases t.len(),
{
    let r = insert_newest_first(t, d);
    if t.len() == 0 {
    } else if text_less(t[0].created_at@, d.created_at@) {
        assert forall|i: int, j: int| 0 <= i < j < r.len() implies !text_less(r[i].created_at@, r[j].created_at@) by {
            if i == 0 {
                assert(r[j] == t[j - 1]);
                if text_less(d.created_at@, t[j - 1].created_at@) {
                    lemma_text_less_transitive(t[0].created_at@, d.created_at@, t[j - 1].created_at@);
                    if j - 1 == 0 {
                        lemma_text_less_irreflexive(t[0].created_at@);
                    }
                }
            } else {
                assert(r[i] == t[i - 1]);
                assert(r[j] == t[j - 1]);
            }
        }
    } else {
        let tail = t.drop_first();
        lemma_insert_sorted(tail, d);
        let ins = insert_newest_first(tail, d);
        assert forall|i: int, j: int| 0 <= i < j < r.len() implies !text_less(r[i].created_at@, r[j].created_at@) by {
            if i == 0 {
                let x = ins[j - 1];
                assert(r[j] == x);
                lemma_insert_contains(tail, d, x);
                assert(ins.contains(x));
                if x != d {
                    let k = choose|k: int| 0 <= k < tail.len() && tail[k] == x;
                    assert(t[k + 1] == x);
                }
            } else {
                assert(r[i] == ins[i - 1]);
                assert(r[j] == ins[j - 1]);
            }
        }
    }
}

proof fn lemma_newest_first_sorted(s: Seq<DeploymentInfo>)
    ensures
        newest_sorted(newest_first(s)),
    decreases s.len(),
{
    if s.len() > 0 {
        lemma_newest_first_sorted(s.drop_last());
        lemma_insert_sorted(newest_first(s.drop_last()), s.last());
    }
}

/// Each group lists its deployments most recent first.
pub proof fn law_group_newest_first(deps: Seq<DeploymentInfo>, g: int)
    requires
        0 <= g < spec_group_by_environment(deps).len(),
    ensures
        newest_sorted(spec_group_by_environment(deps)[g].deployments),
{
    let env = env_order(deps)[g];
    lemma_newest_first_sorted(deps.filter(at_env(env)));
}

/// A group holds exactly the deployments to its environment.
pub proof fn law_group_members(deps: Seq<DeploymentInfo>, g: int, d: DeploymentInfo)
    requires
        0 <= g < spec_group_by_environment(deps).len(),
    ensures
        spec_group_by_environment(deps)[g].deployments.contains(d) <==> (deps.contains(d) && d.environment@
            == spec_group_by_environment(deps)[g].environment),
{
    let env = env_order(deps)[g];
    let members = deps.filter(at_env(env));
    lemma_newest_first_contains(members, d);
    if members.contains(d) {
        deps.lemma_filter_contains_rev(at_env(env), d);
    }
    if deps.contains(d) && d.environment@ == env {
        let i = choose|i: int| 0 <= i < deps.len() && deps[i] == d;
        deps.lemma_filter_pred(at_env(env), 0);
        deps.lemma_filter_contains(at_env(env), i);
    }
}

proof fn lemma_env_names_complete(deps: Seq<DeploymentInfo>, k: int)
    requires
        0 <= k < deps.len(),
    ensures
        env_names(deps).contains(deps[k].environment@),
    decreases deps.len(),
{
    let prev = env_names(deps.drop_last());
    if k < deps.len() - 1 {
        lemma_env_names_complete(deps.drop_last(), k);
        assert(deps.drop_last()[k] == deps[k]);
        if !prev.contains(deps.last().environment@) {
            let j = choose|j: int| 0 <= j < prev.len() && prev[j] == deps[k].environment@;
            assert(prev.push(deps.last().environment@)[j] == prev[j]);
        }
    } else {
        if !prev.contains(deps.last().environment@) {
            assert(prev.push(deps.last().environment@)[prev.len() as int] == deps.last().environment@);
        }
    }
}

proof fn lemma_env_names_distinct(deps: Seq<DeploymentInfo>)
    ensures
        env_names(deps).no_duplicates(),
    decreases deps.len(),
{
    if deps.len() > 0 {
        lemma_env_names_distinct(deps.drop_last());
    }
}

proof fn lemma_filter_no_dup(s: Seq<Seq<char>>, f: spec_fn(Seq<char>) -> bool)
    requires
        s.no_duplicates(),
    ensures
        s.filter(f).no_duplicates(),
    decreases s.len(),
{
    if s.len() > 0 {
        let prev = s.drop_last();
        assert(prev.no_duplicates()) by {
            assert forall|i: int, j: int| 0 <= i < prev.len() && 0 <= j < prev.len() && i != j implies prev[i]
                != prev[j] by {
                assert(prev[i] == s[i] && prev[j] == s[j]);
            }
        }
        lemma_filter_no_dup(prev, f);
        assert(s == prev.push(s.last()));
        prev.lemma_filter_push(s.last(), f);
        if f(s.last()) {
            let pf = prev.filter(f);
            if pf.contains(s.last()) {
                prev.lemma_filter_contains_rev(f, s.last());
                let k = choose|k: int| 0 <= k < prev.len() && prev[k] == s.last();
                assert(s[k] == s[s.len() - 1]);
            }
            assert forall|i: int, j: int| 0 <= i < pf.push(s.last()).len() && 0 <= j < pf.push(s.last()).len() && i
                != j implies pf.push(s.last())[i] != pf.push(s.last())[j] by {
                if i < pf.len() && j == pf.len() {
                    assert(pf[i] != s.last());
                } else if j < pf.len() && i == pf.len() {
                    assert(pf[j] != s.last());
                }
            }
        }
    }
}

proof fn lemma_by_priority_parts(envs: Seq<Seq<char>>, p: nat)
    requires
        p <= 4,
    ensures
        forall|i: int| 0 <= i < by_priority(envs, p).len() ==> (spec_env_priority(#[trigger] by_priority(envs, p)[i]) as nat)
            < p,
        forall|i: int, j: int|
            0 <= i < j < by_priority(envs, p).len() ==> spec_env_priority(#[trigger] by_priority(envs, p)[i])
                <= spec_env_priority(#[trigger] by_priority(envs, p)[j]),
        forall|e: Seq<char>| (envs.contains(e) && (spec_env_priority(e) as nat) < p) ==> #[trigger] by_priority(envs, p).contains(e),
        envs.no_duplicates() ==> by_priority(envs, p).no_duplicates(),
    decreases p,
{
    if p > 0 {
        let q = (p - 1) as nat;
        lemma_by_priority_parts(envs, q);
        let f = |n: Seq<char>| spec_env_priority(n) == q as u8;
        let a = by_priority(envs, q);
        let b = envs.filter(f);
        let c = by_priority(envs, p);
        assert(c == a + b);
        assert forall|i: int| 0 <= i < b.len() implies spec_env_priority(#[trigger] b[i]) == q as u8 by {
            envs.lemma_filter_pred(f, i);
        }
        assert forall|i: int| 0 <= i < c.len() implies (spec_env_priority(#[trigger] c[i]) as nat) < p by {
            if i < a.len() {
                assert(c[i] == a[i]);
            } else {
                assert(c[i] == b[i - a.len()]);
            }
        }
        assert forall|i: int, j: int| 0 <= i < j < c.len() implies spec_env_priority(#[trigger] c[i])
            <= spec_env_priority(#[trigger] c[j]) by {
            if j < a.len() {
                assert(c[i] == a[i]);
                assert(c[j] == a[j]);
            } else if i >= a.len() {
                assert(c[i] == b[i - a.len()]);
                assert(c[j] == b[j - a.len()]);
            } else {
                assert(c[i] == a[i]);
                assert(c[j] == b[j - a.len()]);
            }
        }
        assert forall|e: Seq<char>| (envs.contains(e) && (spec_env_priority(e) as nat) < p) implies #[trigger] c.contains(e) by {
            if (spec_env_priority(e) as nat) < q {
                assert(a.contains(e));
                let i = choose|i: int| 0 <= i < a.len() && a[i] == e;
                assert(c[i] == e);
            } else {
                let k = choose|k: int| 0 <= k < envs.len() && envs[k] == e;
                envs.lemma_filter_contains(f, k);
                let i = choose|i: int| 0 <= i < b.len() && b[i] == e;
                assert(c[a.len() + i] == e);
            }
        }
        if envs.no_duplicates() {
            lemma_filter_no_dup(envs, f);
            assert forall|i: int, j: int| 0 <= i < c.len() && 0 <= j < c.len() && i != j implies c[i] != c[j] by {
                if i < a.len() && j < a.len() {
                    assert(c[i] == a[i] && c[j] == a[j]);
                } else if i >= a.len() && j >= a.len() {
                    assert(c[i] == b[i - a.len()] && c[j] == b[j - a.len()]);
                } else if i < a.len() {
                    assert(c[i] == a[i] && c[j] == b[j - a.len()]);
                    assert((spec_env_priority(a[i]) as nat) < q);
                } else {
                    assert(c[j] == a[j] && c[i] == b[i - a.len()]);
                    assert((spec_env_priority(a[j]) as nat) < q);
                }
            }
        }
    }
}

/// Environments are listed production first, then staging, then
/// development, then the rest.
pub proof fn law_groups_by_priority(deps: Seq<DeploymentInfo>, i: int, j: int)
    requires
        0 <= i < j < spec_group_by_environment(deps).len(),
    ensures
        spec_env_priority(spec_group_by_environment(deps)[i].environment) <= spec_env_priority(
            spec_group_by_environment(deps)[j].environment,
        ),
{
    lemma_by_priority_parts(env_names(deps), 4);
    assert(spec_group_by_environment(deps)[i].environment == by_priority(env_names(deps), 4)[i]);
    assert(spec_group_by_environment(deps)[j].environment == by_priority(env_names(deps), 4)[j]);
}

/// Every deployment is listed, under its environment, and each environment
/// has one group.
pub proof fn law_every_deployment_grouped(deps: Seq<DeploymentInfo>, k: int)
    requires
        0 <= k < deps.len(),
    ensures
        exists|g: int|
            0 <= g < spec_group_by_environment(deps).len() && (#[trigger] spec_group_by_environment(deps)[g]).environment
                == deps[k].environment@ && spec_group_by_environment(deps)[g].deployments.contains(deps[k]),
        forall|g: int, h: int|
            0 <= g < h < spec_group_by_environment(deps).len() ==> (#[trigger] spec_group_by_environment(deps)[g]).environment
                != (#[trigger] spec_group_by_environment(deps)[h]).environment,
{
    let envs = env_names(deps);
    lemma_env_names_complete(deps, k);
    lemma_env_names_distinct(deps);
    lemma_by_priority_parts(envs, 4);
    let e = deps[k].environment@;
    assert(by_priority(envs, 4).contains(e));
    let g = choose|g: int| 0 <= g < by_priority(envs, 4).len() && by_priority(envs, 4)[g] == e;
    assert(spec_group_by_environment(deps)[g].environment == e);
    law_group_members(deps, g, deps[k]);
    assert(deps.contains(deps[k]));
    assert forall|g: int, h: int|
        0 <= g < h < spec_group_by_environment(deps).len() implies (#[trigger] spec_group_by_environment(deps)[g]).environment
            != (#[trigger] spec_group_by_environment(deps)[h]).environment by {
        assert(spec_group_by_environment(deps)[g].environment == by_priority(envs, 4)[g]);
        assert(spec_group_by_environment(deps)[h].environment == by_priority(envs, 4)[h]);
    }
}

} // verus!
