//! Recommendations: which configurations, profiles and benchmark runs to
//! suggest for this machine, from its capabilities, its active state and the
//! evidence gathered on it. The caller ranks the candidates by their score,
//! which rests on the average gains of the evidence records.
use vstd::prelude::*;
use crate::capabilities::{Capability, STATUS_READY};
use crate::configs::{config_table, metas_view, risk_key, ConfigMetaView, ConfigRegistry, lemma_filter_step};
use crate::profiles::{bundled_cards, profile_card};
use crate::text::{concat2, owned, str_eq};

verus! {

/// Functional class of a recommendation.
#[derive(Debug, Clone, Copy, PartialEq, Eq, Structural)]
pub enum RecommendationKind {
    /// A single configuration (e.g. a power plan).
    Config,
    /// A whole profile (e.g. Competitive FPS).
    Profile,
    /// Running a benchmark to set a baseline.
    Benchmark,
    /// Upkeep (e.g. cleaning old snapshots).
    Maintenance,
}

/// The evidence gathered on this machine for one configuration or profile, as
/// the recommendation rules read it: the average gain enters only by whether
/// it is above zero.
#[derive(Debug, Clone)]
pub struct EvidenceFacts {
    /// The configuration or profile id.
    pub subject_id: String,
    pub executions: u32,
    pub successful_executions: u32,
    /// Historical confidence, 0–95.
    pub confidence: u8,
    /// Whether the average gain is above zero.
    pub gain_above_zero: bool,
}

/// Everything the rules read to recommend.
#[derive(Debug, Clone)]
pub struct RecommendationContext {
    pub machine_fingerprint: String,
    /// Capabilities detected at run time.
    pub capabilities: Vec<Capability>,
    /// Number of recent benchmark sessions; 0 when none ever ran.
    pub recent_session_count: usize,
    /// The active profile, if any.
    pub active_profile: Option<String>,
    /// Configurations already applied through the active profile.
    pub active_config_ids: Vec<String>,
    /// Evidence per configuration, for this machine.
    pub config_evidence: Vec<EvidenceFacts>,
    /// Evidence per profile, for this machine.
    pub profile_evidence: Vec<EvidenceFacts>,
    /// Configurations confirmed executable on this machine.
    pub applicable_config_ids: Vec<String>,
}

/// A recommendation before ranking.
#[derive(Debug, Clone)]
pub struct RecommendationCandidate {
    /// Unique id, e.g. "config:visual_effects_gaming", "profile:competitive".
    pub id: String,
    pub title: String,
    pub description: String,
    pub kind: RecommendationKind,
    /// Historical confidence of its evidence, 0 without evidence.
    pub confidence: u8,
    /// The evidence record it rests on: an index into `config_evidence` for a
    /// configuration, into `profile_evidence` for a profile.
    pub evidence: Option<usize>,
    /// "safe" | "moderate" | "advanced"
    pub risk: String,
    pub requires_reboot: bool,
}

/// A candidate as plain values.
pub struct CandidateView {
    pub id: Seq<char>,
    pub title: Seq<char>,
    pub description: Seq<char>,
    pub kind: RecommendationKind,
    pub confidence: u8,
    pub evidence: Option<int>,
    pub risk: Seq<char>,
    pub requires_reboot: bool,
}

impl RecommendationCandidate {
    pub open spec fn view(self) -> CandidateView {
        CandidateView {
            id: self.id@,
            title: self.title@,
            description: self.description@,
            kind: self.kind,
            confidence: self.confidence,
            evidence: match self.evidence {
                Some(i) => Some(i as int),
                None => None,
            },
            risk: self.risk@,
            requires_reboot: self.requires_reboot,
        }
    }
}

/// The views of a list of candidates.
pub open spec fn candidates_view(r: Seq<RecommendationCandidate>) -> Seq<CandidateView> {
    r.map_values(|c: RecommendationCandidate| c.view())
}

/// Whether `id` is among `ids`.
pub open spec fn has_id(ids: Seq<String>, id: Seq<char>) -> bool {
    exists|i: int| 0 <= i < ids.len() && (#[trigger] ids[i])@ == id
}

/// Whether the capability `id` is ready.
pub open spec fn cap_ready(caps: Seq<Capability>, id: Seq<char>) -> bool {
    exists|i: int| 0 <= i < caps.len() && (#[trigger] caps[i]).id@ == id && caps[i].status@ == "ready"@
}

/// Whether `i` is the first evidence record about `id`.
pub open spec fn is_first_evidence(evs: Seq<EvidenceFacts>, id: Seq<char>, i: int) -> bool {
    0 <= i < evs.len() && evs[i].subject_id@ == id && forall|j: int|
        0 <= j < i ==> (#[trigger] evs[j]).subject_id@ != id
}

/// The first evidence record about `id`, if any.
pub open spec fn first_evidence(evs: Seq<EvidenceFacts>, id: Seq<char>) -> Option<int> {
    if exists|i: int| is_first_evidence(evs, id, i) {
        Some(choose|i: int| is_first_evidence(evs, id, i))
    } else {
        None
    }
}

/// Whether a record shows a positive score: some confidence, a gain above
/// zero and at least one success.
pub open spec fn positive(e: EvidenceFacts) -> bool {
    e.confidence > 0 && e.gain_above_zero && e.successful_executions > 0
}

/// Whether the evidence about `id`, if any, leaves it recommendable.
pub open spec fn evidence_allows(evs: Seq<EvidenceFacts>, id: Seq<char>) -> bool {
    match first_evidence(evs, id) {
        Some(i) => positive(evs[i]),
        None => true,
    }
}

/// The confidence of the evidence about `id`, 0 without evidence.
pub open spec fn confidence_from(evs: Seq<EvidenceFacts>, id: Seq<char>) -> u8 {
    match first_evidence(evs, id) {
        Some(i) => evs[i].confidence,
        None => 0,
    }
}

/// A configuration is recommended when it is not active, is applicable here
/// and its evidence, if any, is positive.
pub open spec fn config_wanted(ctx: RecommendationContext, m: ConfigMetaView) -> bool {
    !has_id(ctx.active_config_ids@, m.id) && has_id(ctx.applicable_config_ids@, m.id)
        && evidence_allows(ctx.config_evidence@, m.id)
}

/// The candidate for a configuration.
pub open spec fn config_candidate(ctx: RecommendationContext, m: ConfigMetaView) -> CandidateView {
    CandidateView {
        id: "config:"@ + m.id,
        title: m.name,
        description: m.description,
        kind: RecommendationKind::Config,
        confidence: confidence_from(ctx.config_evidence@, m.id),
        evidence: first_evidence(ctx.config_evidence@, m.id),
        risk: risk_key(m.risk),
        requires_reboot: m.requires_reboot,
    }
}

/// Whether FPS measurement is ready.
pub open spec fn fps_ready(ctx: RecommendationContext) -> bool {
    cap_ready(ctx.capabilities@, "fps_measurement"@)
}

/// A profile is recommended when it is not the active one, it can be
/// measured (FPS ready, where it needs FPS) and its evidence, if any, is
/// positive.
pub open spec fn profile_wanted(ctx: RecommendationContext, c: (Seq<char>, Seq<char>, Seq<char>, bool)) -> bool {
    !(ctx.active_profile matches Some(a) && a@ == c.0) && (!c.3 || fps_ready(ctx))
        && evidence_allows(ctx.profile_evidence@, c.0)
}

/// The candidate for a profile card.
pub open spec fn profile_candidate(ctx: RecommendationContext, c: (Seq<char>, Seq<char>, Seq<char>, bool)) -> CandidateView {
    CandidateView {
        id: "profile:"@ + c.0,
        title: c.1,
        description: c.2,
        kind: RecommendationKind::Profile,
        confidence: confidence_from(ctx.profile_evidence@, c.0),
        evidence: first_evidence(ctx.profile_evidence@, c.0),
        risk: "safe"@,
        requires_reboot: false,
    }
}

/// The candidate for a first benchmark.
pub open spec fn benchmark_candidate() -> CandidateView {
    CandidateView {
        id: "benchmark:initial"@,
        title: "Executar benchmark inicial"@,
        description: "Nenhum benchmark foi executado ainda. Execute para estabelecer a linha de base de performance desta máquina."@,
        kind: RecommendationKind::Benchmark,
        confidence: 0,
        evidence: None,
        risk: "safe"@,
        requires_reboot: false,
    }
}

/// Whether a first benchmark is recommended: none ran yet and the benchmark
/// engine is ready.
pub open spec fn benchmark_wanted(ctx: RecommendationContext) -> bool {
    ctx.recent_session_count == 0 && cap_ready(ctx.capabilities@, "benchmark_engine"@)
}

/// The configuration candidates, in registry order.
pub open spec fn config_candidates(ctx: RecommendationContext) -> Seq<CandidateView> {
    config_table().filter(|m: ConfigMetaView| config_wanted(ctx, m)).map_values(
        |m: ConfigMetaView| config_candidate(ctx, m),
    )
}

/// The profile candidates, in bundle order.
pub open spec fn profile_candidates(ctx: RecommendationContext) -> Seq<CandidateView> {
    bundled_cards().filter(|c: (Seq<char>, Seq<char>, Seq<char>, bool)| profile_wanted(ctx, c)).map_values(
        |c: (Seq<char>, Seq<char>, Seq<char>, bool)| profile_candidate(ctx, c),
    )
}

/// Every candidate: configurations, then profiles, then the first benchmark.
pub open spec fn expected_candidates(ctx: RecommendationContext) -> Seq<CandidateView> {
    config_candidates(ctx) + profile_candidates(ctx) + if benchmark_wanted(ctx) {
        seq![benchmark_candidate()]
    } else {
        Seq::<CandidateView>::empty()
    }
}


fn has_id_in(ids: &Vec<String>, id: &str) -> (b: bool)
    ensures
        b == has_id(ids@, id@),
{
    let mut i: usize = 0;
    while i < ids.len()
        invariant
            i <= ids@.len(),
            forall|k: int| 0 <= k < i ==> (#[trigger] ids@[k])@ != id@,
        decreases ids@.len() - i,
    {
        if str_eq(ids[i].as_str(), id) {
            return true;
        }
        i = i + 1;
    }
    false
}

fn is_ready(caps: &Vec<Capability>, id: &str) -> (b: bool)
    ensures
        b == cap_ready(caps@, id@),
{
    let mut i: usize = 0;
    while i < caps.len()
        invariant
            i <= caps@.len(),
            forall|k: int| 0 <= k < i ==> !((#[trigger] caps@[k]).id@ == id@ && caps@[k].status@ == "ready"@),
        decreases caps@.len() - i,
    {
        if str_eq(caps[i].id.as_str(), id) && str_eq(caps[i].status.as_str(), STATUS_READY) {
            return true;
        }
        i = i + 1;
    }
    false
}

fn find_evidence(evs: &Vec<EvidenceFacts>, id: &str) -> (r: Option<usize>)
    ensures
        match r {
            Some(i) => first_evidence(evs@, id@) == Some(i as int),
            None => first_evidence(evs@, id@) is None,
        },
{
    let mut i: usize = 0;
    while i < evs.len()
        invariant
            i <= evs@.len(),
            forall|k: int| 0 <= k < i ==> (#[trigger] evs@[k]).subject_id@ != id@,
        decreases evs@.len() - i,
    {
        if str_eq(evs[i].subject_id.as_str(), id) {
            assert(is_first_evidence(evs@, id@, i as int));
            assert forall|k: int| is_first_evidence(evs@, id@, k) implies k == i as int by {
                if k < i {
                    assert(evs@[k].subject_id@ != id@);
                } else if k > i {
                    assert(evs@[i as int].subject_id@ != id@);
                }
            }
            return Some(i);
        }
        i = i + 1;
    }
    None
}

fn is_positive(e: &EvidenceFacts) -> (b: bool)
    ensures
        b == positive(*e),
{
    e.confidence > 0 && e.gain_above_zero && e.successful_executions > 0
}


/// The candidate for one configuration, if it is recommended.
fn config_step(ctx: &RecommendationContext, meta: &crate::configs::ConfigMeta) -> (r: Option<RecommendationCandidate>)
    ensures
        r is Some <==> config_wanted(*ctx, meta.view()),
        r matches Some(c) ==> c.view() == config_candidate(*ctx, meta.view()),
{
    if has_id_in(&ctx.active_config_ids, meta.id) {
        return None;
    }
    if !has_id_in(&ctx.applicable_config_ids, meta.id) {
        return None;
    }
    let ev = find_evidence(&ctx.config_evidence, meta.id);
    let confidence: u8 = match ev {
        Some(i) => {
            if !is_positive(&ctx.config_evidence[i]) {
                return None;
            }
            ctx.config_evidence[i].confidence
        },
        None => 0,
    };
    Some(RecommendationCandidate {
        id: concat2("config:", meta.id),
        title: owned(meta.name),
        description: owned(meta.description),
        kind: RecommendationKind::Config,
        confidence,
        evidence: ev,
        risk: owned(meta.risk.as_str()),
        requires_reboot: meta.requires_reboot,
    })
}

/// The candidate for one profile, if it is recommended.
fn profile_step(ctx: &RecommendationContext, p: &crate::profiles::ProfileDefinition, fps: bool) -> (r: Option<RecommendationCandidate>)
    requires
        fps == fps_ready(*ctx),
    ensures
        r is Some <==> profile_wanted(*ctx, profile_card(*p)),
        r matches Some(c) ==> c.view() == profile_candidate(*ctx, profile_card(*p)),
{
    if let Some(a) = &ctx.active_profile {
        if str_eq(a.as_str(), p.id.as_str()) {
            return None;
        }
    }
    if p.requires_fps && !fps {
        return None;
    }
    let ev = find_evidence(&ctx.profile_evidence, p.id.as_str());
    let confidence: u8 = match ev {
        Some(i) => {
            if !is_positive(&ctx.profile_evidence[i]) {
                return None;
            }
            ctx.profile_evidence[i].confidence
        },
        None => 0,
    };
    let description = match &p.description {
        Some(d) => owned(d.as_str()),
        None => String::new(),
    };
    Some(RecommendationCandidate {
        id: concat2("profile:", p.id.as_str()),
        title: owned(p.name.as_str()),
        description,
        kind: RecommendationKind::Profile,
        confidence,
        evidence: ev,
        risk: owned("safe"),
        requires_reboot: false,
    })
}


/// The stateless recommendation engine.
pub struct RecommendationEngine;

impl RecommendationEngine {
    /// Every recommendation that applies in `ctx`: the applicable, inactive
    /// configurations whose evidence is positive or absent, in registry order;
    /// then the bundled profiles that are not active, can be measured and
    /// whose evidence is positive or absent; then a first benchmark when none
    /// ran yet and the engine is ready. Unranked.
    pub fn generate(ctx: &RecommendationContext) -> (r: Vec<RecommendationCandidate>)
        ensures
            candidates_view(r@) == expected_candidates(*ctx),
    {
        let mut recs: Vec<RecommendationCandidate> = Vec::new();
        let fps = is_ready(&ctx.capabilities, "fps_measurement");
        proof {
            reveal_strlit("fps_measurement");
        }
        let registry = ConfigRegistry::new();
        let all = registry.all();
        let ghost cw = |m: ConfigMetaView| config_wanted(*ctx, m);
        let ghost cc = |m: ConfigMetaView| config_candidate(*ctx, m);
        let mut i: usize = 0;
        while i < all.len()
            invariant
                metas_view(all@) == config_table(),
                i <= all@.len(),
                cw == (|m: ConfigMetaView| config_wanted(*ctx, m)),
                cc == (|m: ConfigMetaView| config_candidate(*ctx, m)),
                candidates_view(recs@) == config_table().subrange(0, i as int).filter(cw).map_values(cc),
            decreases all@.len() - i,
        {
            proof {
                lemma_filter_step(config_table(), i as int, cw);
            }
            let meta = all[i].meta();
            assert(meta.view() == config_table()[i as int]);
            match config_step(ctx, meta) {
                Some(c) => {
                    let ghost before = recs@;
                    recs.push(c);
                    assert(candidates_view(recs@) =~= candidates_view(before).push(c.view()));
                    assert(config_table().subrange(0, i + 1).filter(cw).map_values(cc) =~= config_table().subrange(0, i as int).filter(cw).map_values(cc).push(cc(meta.view())));
                },
                None => {},
            }
            i = i + 1;
        }
        assert(config_table().subrange(0, config_table().len() as int) =~= config_table());
        assert(candidates_view(recs@) == config_candidates(*ctx));
        let ghost n_config = recs@.len();
        let profiles = crate::profiles::all();
        let ghost pw = |c: (Seq<char>, Seq<char>, Seq<char>, bool)| profile_wanted(*ctx, c);
        let ghost pc = |c: (Seq<char>, Seq<char>, Seq<char>, bool)| profile_candidate(*ctx, c);
        let mut j: usize = 0;
        while j < profiles.len()
            invariant
                profiles@.len() == 4,
                forall|k: int| 0 <= k < 4 ==> profile_card(#[trigger] profiles@[k]) == bundled_cards()[k],
                j <= 4,
                fps == fps_ready(*ctx),
                pw == (|c: (Seq<char>, Seq<char>, Seq<char>, bool)| profile_wanted(*ctx, c)),
                pc == (|c: (Seq<char>, Seq<char>, Seq<char>, bool)| profile_candidate(*ctx, c)),
                candidates_view(recs@) == config_candidates(*ctx) + bundled_cards().subrange(0, j as int).filter(pw).map_values(pc),
            decreases 4 - j,
        {
            proof {
                lemma_filter_step(bundled_cards(), j as int, pw);
            }
            let p = &profiles[j];
            assert(profile_card(*p) == bundled_cards()[j as int]);
            match profile_step(ctx, p, fps) {
                Some(c) => {
                    let ghost before = recs@;
                    recs.push(c);
                    assert(candidates_view(recs@) =~= candidates_view(before).push(c.view()));
                    assert(bundled_cards().subrange(0, j + 1).filter(pw).map_values(pc) =~= bundled_cards().subrange(0, j as int).filter(pw).map_values(pc).push(pc(profile_card(*p))));
                },
                None => {},
            }
            j = j + 1;
        }
        assert(bundled_cards().subrange(0, 4) =~= bundled_cards());
        let bench = is_ready(&ctx.capabilities, "benchmark_engine");
        if ctx.recent_session_count == 0 && bench {
            let ghost before = recs@;
            recs.push(RecommendationCandidate {
                id: owned("benchmark:initial"),
                title: owned("Executar benchmark inicial"),
                description: owned("Nenhum benchmark foi executado ainda. Execute para estabelecer a linha de base de performance desta máquina."),
                kind: RecommendationKind::Benchmark,
                confidence: 0,
                evidence: None,
                risk: owned("safe"),
                requires_reboot: false,
            });
            assert(candidates_view(recs@) =~= candidates_view(before).push(benchmark_candidate()));
        } else {
            assert(candidates_view(recs@) =~= candidates_view(recs@) + Seq::<CandidateView>::empty());
        }
        recs
    }
}


// ───────────────────────── Laws ─────────────────────────

/// Keeping some items of a list whose keys differ pairwise keeps keys that
/// differ pairwise.
proof fn lemma_filter_keys_distinct<A>(s: Seq<A>, p: spec_fn(A) -> bool, key: spec_fn(A) -> Seq<char>)
    requires
        forall|i: int, j: int| 0 <= i < j < s.len() ==> key(s[i]) != key(s[j]),
    ensures
        forall|i: int, j: int|
            0 <= i < j < s.filter(p).len() ==> key(s.filter(p)[i]) != key(s.filter(p)[j]),
    decreases s.len(),
{
    reveal(Seq::filter);
    if s.len() > 0 {
        let r = s.drop_last();
        lemma_filter_keys_distinct(r, p, key);
        let t = r.filter(p);
        if p(s.last()) {
            assert forall|i: int| 0 <= i < t.len() implies key(t[i]) != key(s.last()) by {
                assert(t.contains(t[i]));
                r.lemma_filter_contains_rev(p, t[i]);
                let k = choose|k: int| 0 <= k < r.len() && r[k] == t[i];
                assert(s[k] == r[k]);
            }
            assert(s.filter(p) == t.push(s.last()));
        }
    }
}

/// Two ids with one prefix differ when what follows differs.
proof fn lemma_prefixed_differ(pre: Seq<char>, a: Seq<char>, b: Seq<char>)
    requires
        a != b,
    ensures
        pre + a != pre + b,
{
    if pre + a == pre + b {
        assert((pre + a).subrange(pre.len() as int, (pre + a).len() as int) =~= a);
        assert((pre + b).subrange(pre.len() as int, (pre + b).len() as int) =~= b);
    }
}

/// No two recommendations share an id: configurations, profiles and the
/// benchmark run each carry their own prefix, and within each group the ids
/// of the registry and of the bundle differ.
pub proof fn lemma_recommendation_ids_distinct(ctx: RecommendationContext)
    ensures
        forall|i: int, j: int|
            0 <= i < j < expected_candidates(ctx).len() ==> expected_candidates(ctx)[i].id
                != expected_candidates(ctx)[j].id,
{
    reveal_strlit("config:");
    reveal_strlit("profile:");
    reveal_strlit("benchmark:initial");
    crate::configs::lemma_config_ids_distinct();
    reveal_strlit("competitive");
    reveal_strlit("balanced");
    reveal_strlit("streaming");
    reveal_strlit("power_saver");
    let cw = |m: ConfigMetaView| config_wanted(ctx, m);
    let cc = |m: ConfigMetaView| config_candidate(ctx, m);
    let pw = |c: (Seq<char>, Seq<char>, Seq<char>, bool)| profile_wanted(ctx, c);
    let pc = |c: (Seq<char>, Seq<char>, Seq<char>, bool)| profile_candidate(ctx, c);
    let mkey = |m: ConfigMetaView| m.id;
    let ckey = |c: (Seq<char>, Seq<char>, Seq<char>, bool)| c.0;
    let ct = config_table();
    let bc = bundled_cards();
    assert forall|i: int, j: int| 0 <= i < j < ct.len() implies mkey(ct[i]) != mkey(ct[j]) by {
        assert(crate::configs::config_ids()[i] == ct[i].id);
        assert(crate::configs::config_ids()[j] == ct[j].id);
    }
    assert forall|i: int, j: int| 0 <= i < j < bc.len() implies ckey(bc[i]) != ckey(bc[j]) by {
        crate::text::lemma_heads_differ(bc[i].0, bc[j].0);
    }
    lemma_filter_keys_distinct(ct, cw, mkey);
    lemma_filter_keys_distinct(bc, pw, ckey);
    let a = config_candidates(ctx);
    let b = profile_candidates(ctx);
    let fa = ct.filter(cw);
    let fb = bc.filter(pw);
    assert(a == fa.map_values(cc));
    assert(b == fb.map_values(pc));
    let c = if benchmark_wanted(ctx) {
        seq![benchmark_candidate()]
    } else {
        Seq::<CandidateView>::empty()
    };
    let e = expected_candidates(ctx);
    assert(e == a + b + c);
    assert forall|i: int, j: int| 0 <= i < j < e.len() implies e[i].id != e[j].id by {
        if j < a.len() {
            lemma_prefixed_differ("config:"@, fa[i].id, fa[j].id);
        } else if j < a.len() + b.len() {
            let jb = j - a.len();
            if i < a.len() {
                crate::text::lemma_heads_differ(e[i].id, e[j].id);
            } else {
                lemma_prefixed_differ("profile:"@, fb[i - a.len()].0, fb[jb].0);
            }
        } else {
            assert(e[j] == benchmark_candidate());
            assert(e[j].id[0] == 'b');
            if i < a.len() {
                assert(e[i].id == "config:"@ + fa[i].id);
                assert(e[i].id[0] == 'c');
            } else {
                assert(e[i].id == "profile:"@ + fb[i - a.len()].0);
                assert(e[i].id[0] == 'p');
            }
            crate::text::lemma_heads_differ(e[i].id, e[j].id);
        }
    }
}

} // verus!
