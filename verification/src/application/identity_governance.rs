//! The governance an automatic identity revision has to pass: enough active
//! claims in the namespace support the proposed values, across enough
//! episodes, with no conflicting active claim, outside the cooldown, and with a
//! small patch.
use vstd::prelude::*;

use crate::application::auto_reflect_if_needed::{TriggerCandidate, AUTO_REFLECTION_COOLDOWN_HOURS};
use crate::domain::error::AppError;
use crate::domain::self_revision::SelfRevisionProposal;
use crate::domain::time::{ts_before, Timestamp};
use crate::ports::{StoredClaim, StoredTriggerLedgerEntry, TriggerLedgerStatus};
use crate::seqs::{contains_text, copy_strings, dedup, dedupe_strings, texts};
use crate::text::{
    chars_of, concat3, debug_string_list, decimal, decimal_string, format_debug_list, rfind_char,
    string_of,
};

verus! {

/// The text after the last `=` of a canonical claim, when it has one.
pub open spec fn claim_value(s: Seq<char>) -> Option<Seq<char>> {
    if s.contains('=') {
        let i = choose|i: int|
            0 <= i < s.len() && s[i] == '=' && forall|j: int| i < j < s.len() ==> s[j] != '=';
        Some(s.subrange(i + 1, s.len() as int))
    } else {
        None
    }
}

/// The values of the claims that have one, in order.
pub open spec fn claim_values(claims: Seq<Seq<char>>) -> Seq<Seq<char>>
    decreases claims.len(),
{
    if claims.len() == 0 {
        Seq::empty()
    } else {
        let rest = claim_values(claims.drop_last());
        match claim_value(claims.last()) {
            Some(v) => rest.push(v),
            None => rest,
        }
    }
}

/// The identity claims a proposal would write (none without an identity patch).
pub open spec fn proposed_identity_claims(proposal: SelfRevisionProposal) -> Seq<Seq<char>> {
    match proposal.machine_patch.identity_patch {
        Some(p) => texts(p.canonical_claims@),
        None => Seq::empty(),
    }
}

/// The distinct values of the identity claims a proposal would write.
pub open spec fn proposed_values(proposal: SelfRevisionProposal) -> Seq<Seq<char>> {
    dedup(claim_values(proposed_identity_claims(proposal)))
}

/// An active claim in `namespace` whose object is one of `values`.
pub open spec fn supports(claim: StoredClaim, namespace: Seq<char>, values: Seq<Seq<char>>) -> bool {
    claim.claim.spec_namespace() == namespace && values.contains(claim.claim.spec_object())
}

/// The number of claims that support `values` in `namespace`.
pub open spec fn count_supporting(
    claims: Seq<StoredClaim>,
    namespace: Seq<char>,
    values: Seq<Seq<char>>,
) -> nat
    decreases claims.len(),
{
    if claims.len() == 0 {
        0
    } else {
        count_supporting(claims.drop_last(), namespace, values) + if supports(
            claims.last(),
            namespace,
            values,
        ) {
            1nat
        } else {
            0nat
        }
    }
}

/// The ids of the claims that support `values` in `namespace`, in order.
pub open spec fn supporting_ids(
    claims: Seq<StoredClaim>,
    namespace: Seq<char>,
    values: Seq<Seq<char>>,
) -> Seq<Seq<char>>
    decreases claims.len(),
{
    if claims.len() == 0 {
        Seq::empty()
    } else {
        let rest = supporting_ids(claims.drop_last(), namespace, values);
        if supports(claims.last(), namespace, values) {
            rest.push(claims.last().claim_id@)
        } else {
            rest
        }
    }
}

/// `other` holds, in `namespace`, another value for the subject and predicate
/// of the supporting claim `claim`.
pub open spec fn conflicts_with(
    claim: StoredClaim,
    other: StoredClaim,
    namespace: Seq<char>,
    values: Seq<Seq<char>>,
) -> bool {
    &&& supports(claim, namespace, values)
    &&& other.claim.spec_namespace() == namespace
    &&& other.claim.spec_subject() == claim.claim.spec_subject()
    &&& other.claim.spec_predicate() == claim.claim.spec_predicate()
    &&& !values.contains(other.claim.spec_object())
}

/// Some active claim conflicts with a supporting one.
pub open spec fn has_conflict(
    claims: Seq<StoredClaim>,
    namespace: Seq<char>,
    values: Seq<Seq<char>>,
) -> bool {
    exists|i: int, j: int|
        0 <= i < claims.len() && 0 <= j < claims.len() && #[trigger] conflicts_with(
            claims[i],
            claims[j],
            namespace,
            values,
        )
}

/// What an identity revision is judged on.
#[derive(Debug, Clone, PartialEq, Eq)]
pub struct IdentityRevisionContext {
    pub proposed_values: Vec<String>,
    pub supporting_claim_count: usize,
    pub cross_episode_support_count: usize,
    pub has_high_conflict: bool,
    pub now: Timestamp,
    pub latest_handled_at: Option<Timestamp>,
    pub cooldown_until: Option<Timestamp>,
    pub patch_size: usize,
}

/// When the latest entry of the key was handled, if it is a handled entry.
pub open spec fn spec_latest_handled_at(latest: Option<StoredTriggerLedgerEntry>) -> Option<
    Timestamp,
> {
    match latest {
        Some(e) => if e.status is Handled {
            e.handled_at
        } else {
            None
        },
        None => None,
    }
}

/// The cooldown boundary of the latest entry of the key, if it is handled or
/// suppressed.
pub open spec fn spec_context_cooldown(latest: Option<StoredTriggerLedgerEntry>) -> Option<
    Timestamp,
> {
    match latest {
        Some(e) => if e.status is Handled || e.status is Suppressed {
            e.cooldown_until
        } else {
            None
        },
        None => None,
    }
}

/// The value of a canonical claim: the text after its last `=`.
pub fn claim_value_of(claim: &str) -> (r: Option<String>)
    ensures
        match r {
            Some(v) => claim_value(claim@) == Some(v@),
            None => claim_value(claim@) is None,
        },
{
    let chars = chars_of(claim);
    match rfind_char(chars.as_slice(), '=') {
        None => None,
        Some(i) => {
            let n: usize = chars.len();
            assert(i < n);
            let mut tail: Vec<char> = Vec::new();
            let mut k: usize = i + 1;
            while k < chars.len()
                invariant
                    i < chars@.len(),
                    i + 1 <= k <= chars@.len(),
                    tail@ == chars@.subrange(i + 1, k as int),
                decreases chars@.len() - k,
            {
                tail.push(chars[k]);
                k = k + 1;
            }
            proof {
                let s = claim@;
                assert(s[i as int] == '=');
                let c = choose|c: int|
                    0 <= c < s.len() && s[c] == '=' && forall|j: int| c < j < s.len() ==> s[j] != '=';
                assert(s.contains('='));
                if c < i {
                    assert(s[i as int] != '=');
                }
                if c > i {
                    assert(s[c] != '=');
                }
            }
            Some(string_of(tail.as_slice()))
        },
    }
}

/// The values of the given canonical claims that have one, in order.
pub fn collect_claim_values(claims: &[String]) -> (r: Vec<String>)
    ensures
        texts(r@) == claim_values(texts(claims@)),
{
    let ghost src = texts(claims@);
    let mut out: Vec<String> = Vec::new();
    let mut i: usize = 0;
    while i < claims.len()
        invariant
            src == texts(claims@),
            i <= claims@.len(),
            texts(out@) == claim_values(src.take(i as int)),
        decreases claims@.len() - i,
    {
        assert(src.take(i + 1).drop_last() =~= src.take(i as int));
        assert(src.take(i + 1).last() == claims@[i as int]@);
        match claim_value_of(claims[i].as_str()) {
            Some(v) => {
                out.push(v);
                assert(texts(out@) =~= claim_values(src.take(i as int)).push(v@));
            },
            None => {},
        }
        i = i + 1;
    }
    assert(src.take(claims@.len() as int) =~= src);
    out
}

/// Whether an active claim supports `values` in `namespace`.
fn claim_supports(claim: &StoredClaim, namespace: &str, values: &[String]) -> (r: bool)
    ensures
        r == supports(*claim, namespace@, texts(values@)),
{
    crate::text::same_text(claim.claim.namespace().as_str(), namespace) && contains_text(
        values,
        claim.claim.object(),
    )
}

/// The number of active claims that support `values` in `namespace`.
pub fn count_supporting_claims(claims: &[StoredClaim], namespace: &str, values: &[String]) -> (r:
    usize)
    ensures
        r == count_supporting(claims@, namespace@, texts(values@)),
{
    let mut count: usize = 0;
    let mut i: usize = 0;
    while i < claims.len()
        invariant
            i <= claims@.len(),
            count <= i,
            count == count_supporting(claims@.take(i as int), namespace@, texts(values@)),
        decreases claims@.len() - i,
    {
        assert(claims@.take(i + 1).drop_last() =~= claims@.take(i as int));
        if claim_supports(&claims[i], namespace, values) {
            count = count + 1;
        }
        i = i + 1;
    }
    assert(claims@.take(claims@.len() as int) =~= claims@);
    count
}

/// Whether some active claim holds another value for the subject and predicate
/// of a supporting claim, in `namespace`.
pub fn has_high_conflict(claims: &[StoredClaim], namespace: &str, values: &[String]) -> (r: bool)
    ensures
        r == has_conflict(claims@, namespace@, texts(values@)),
{
    let ghost vs = texts(values@);
    let mut j: usize = 0;
    while j < claims.len()
        invariant
            vs == texts(values@),
            j <= claims@.len(),
            forall|a: int, b: int|
                0 <= a < claims@.len() && 0 <= b < j ==> !#[trigger] conflicts_with(
                    claims@[a],
                    claims@[b],
                    namespace@,
                    vs,
                ),
        decreases claims@.len() - j,
    {
        let other = &claims[j];
        let other_open = crate::text::same_text(other.claim.namespace().as_str(), namespace)
            && !contains_text(values, other.claim.object());
        if other_open {
            let mut i: usize = 0;
            while i < claims.len()
                invariant
                    vs == texts(values@),
                    j < claims@.len(),
                    i <= claims@.len(),
                    other == claims@[j as int],
                    other.claim.spec_namespace() == namespace@,
                    !vs.contains(other.claim.spec_object()),
                    forall|a: int, b: int|
                        0 <= a < claims@.len() && 0 <= b < j ==> !#[trigger] conflicts_with(
                            claims@[a],
                            claims@[b],
                            namespace@,
                            vs,
                        ),
                    forall|a: int|
                        0 <= a < i ==> !#[trigger] conflicts_with(
                            claims@[a],
                            claims@[j as int],
                            namespace@,
                            vs,
                        ),
                decreases claims@.len() - i,
            {
                let claim = &claims[i];
                if claim_supports(claim, namespace, values) && crate::text::same_text(
                    claim.claim.subject(),
                    other.claim.subject(),
                ) && crate::text::same_text(claim.claim.predicate(), other.claim.predicate()) {
                    assert(conflicts_with(claims@[i as int], claims@[j as int], namespace@, vs));
                    return true;
                }
                i = i + 1;
            }
        }
        j = j + 1;
    }
    false
}

/// The distinct values a proposal's identity patch asserts: the text after
/// the last `=` of each of its canonical claims, each value once.
pub fn proposed_claim_values(proposal: &SelfRevisionProposal) -> (r: Vec<String>)
    ensures
        texts(r@) == proposed_values(*proposal),
{
    let claims: Vec<String> = match &proposal.machine_patch.identity_patch {
        Some(patch) => copy_strings(patch.canonical_claims.as_slice()),
        None => Vec::new(),
    };
    proof {
        assert(texts(claims@) =~= proposed_identity_claims(*proposal));
    }
    dedupe_strings(collect_claim_values(claims.as_slice()))
}

/// The ids of the active claims that support `values` in `namespace`, in
/// order.
pub fn supporting_claim_ids(claims: &[StoredClaim], namespace: &str, values: &[String]) -> (r: Vec<
    String,
>)
    ensures
        texts(r@) == supporting_ids(claims@, namespace@, texts(values@)),
{
    let mut out: Vec<String> = Vec::new();
    let mut i: usize = 0;
    while i < claims.len()
        invariant
            i <= claims@.len(),
            texts(out@) == supporting_ids(claims@.take(i as int), namespace@, texts(values@)),
        decreases claims@.len() - i,
    {
        assert(claims@.take(i + 1).drop_last() =~= claims@.take(i as int));
        if claim_supports(&claims[i], namespace, values) {
            out.push(claims[i].claim_id.clone());
            assert(texts(out@) =~= supporting_ids(claims@.take(i as int), namespace@, texts(values@)).push(
                claims@[i as int].claim_id@,
            ));
        }
        i = i + 1;
    }
    assert(claims@.take(claims@.len() as int) =~= claims@);
    out
}

/// The governance context of a proposal for `candidate`, from the active
/// claims, the latest ledger entry of the key, the references of the episodes
/// that hold evidence of the supporting claims (see `supporting_claim_ids`)
/// and the time. Cross-episode support is the number of those episodes,
/// each counted once.
pub fn build_identity_revision_context(
    candidate: &TriggerCandidate,
    proposal: &SelfRevisionProposal,
    active_claims: &[StoredClaim],
    latest_entry: &Option<StoredTriggerLedgerEntry>,
    supporting_episode_references: Vec<String>,
    now: Timestamp,
) -> (r: IdentityRevisionContext)
    ensures
        texts(r.proposed_values@) == proposed_values(*proposal),
        r.supporting_claim_count == count_supporting(
            active_claims@,
            candidate.namespace@,
            proposed_values(*proposal),
        ),
        r.cross_episode_support_count == dedup(texts(supporting_episode_references@)).len(),
        r.has_high_conflict == has_conflict(
            active_claims@,
            candidate.namespace@,
            proposed_values(*proposal),
        ),
        r.now == now,
        r.latest_handled_at == spec_latest_handled_at(*latest_entry),
        r.cooldown_until == spec_context_cooldown(*latest_entry),
        r.patch_size == proposed_identity_claims(*proposal).len(),
{
    let patch_size: usize = match &proposal.machine_patch.identity_patch {
        Some(patch) => patch.canonical_claims.len(),
        None => 0,
    };
    let values = proposed_claim_values(proposal);
    let ns = candidate.namespace.as_str();
    let supporting_claim_count = count_supporting_claims(active_claims, ns, values.as_slice());
    let high_conflict = has_high_conflict(active_claims, ns, values.as_slice());
    let episodes = dedupe_strings(supporting_episode_references);
    proof {
        assert(texts(episodes@).len() == episodes@.len());
    }
    let cross_episode_support_count = episodes.len();
    let latest_handled_at = match latest_entry {
        Some(e) => match e.status {
            TriggerLedgerStatus::Handled => e.handled_at,
            _ => None,
        },
        None => None,
    };
    let cooldown_until = match latest_entry {
        Some(e) => match e.status {
            TriggerLedgerStatus::Handled | TriggerLedgerStatus::Suppressed => e.cooldown_until,
            _ => None,
        },
        None => None,
    };
    IdentityRevisionContext {
        proposed_values: values,
        supporting_claim_count,
        cross_episode_support_count,
        has_high_conflict: high_conflict,
        now,
        latest_handled_at,
        cooldown_until,
        patch_size,
    }
}

/// `now` falls before 24 hours have passed since `start`.
pub open spec fn within_a_day_of(start: Timestamp, now: Timestamp) -> bool {
    let end = start.secs + AUTO_REFLECTION_COOLDOWN_HOURS * 3600;
    now.secs < end || (now.secs == end && now.nanos < start.nanos)
}

/// Whether `now` falls before 24 hours have passed since `start`.
pub fn is_within_a_day_of(start: Timestamp, now: Timestamp) -> (r: bool)
    ensures
        r == within_a_day_of(start, now),
{
    let end: i128 = start.secs as i128 + (AUTO_REFLECTION_COOLDOWN_HOURS as i128) * 3600;
    let n: i128 = now.secs as i128;
    n < end || (n == end && now.nanos < start.nanos)
}

/// The check an identity revision fails first, if any, as its message:
/// fewer than `min_support` supporting claims, support across fewer than
/// `min_episodes` episodes, a conflicting active claim, a live cooldown, a
/// handled revision within the last 24 hours, or a patch of no claims or of
/// more than `max_patch` claims.
pub open spec fn identity_rejection(
    context: IdentityRevisionContext,
    min_support: nat,
    min_episodes: nat,
    max_patch: nat,
) -> Option<Seq<char>> {
    if context.supporting_claim_count < min_support {
        Some(
            "identity auto-reflection requires at least "@ + decimal(min_support)
                + " supporting claims"@,
        )
    } else if context.cross_episode_support_count < min_episodes {
        Some(
            "identity auto-reflection requires support across at least "@ + decimal(min_episodes)
                + " episodes"@,
        )
    } else if context.has_high_conflict {
        Some(
            "identity auto-reflection cannot proceed while high-conflict evidence remains active for "@
                + debug_string_list(texts(context.proposed_values@)),
        )
    } else if context.cooldown_until matches Some(c) && ts_before(context.now, c) {
        Some("identity auto-reflection cooldown has not elapsed"@)
    } else if context.latest_handled_at matches Some(h) && within_a_day_of(h, context.now) {
        Some("identity auto-reflection handled too recently"@)
    } else if context.patch_size == 0 || context.patch_size > max_patch {
        Some(
            "identity auto-reflection patch must contain between 1 and "@ + decimal(max_patch)
                + " claims"@,
        )
    } else {
        None
    }
}

/// The outcome of a check: success, or a rejection with its message.
pub open spec fn check_outcome(r: Result<(), AppError>) -> Option<Seq<char>> {
    match r {
        Ok(_) => None,
        Err(e) => Some(e.message_view()),
    }
}

/// At least `minimum` active claims support the proposed values.
pub fn ensure_min_supporting_claims(context: &IdentityRevisionContext, minimum: usize) -> (r:
    Result<(), AppError>)
    ensures
        check_outcome(r) == if context.supporting_claim_count < minimum {
            Some(
                "identity auto-reflection requires at least "@ + decimal(minimum as nat)
                    + " supporting claims"@,
            )
        } else {
            None::<Seq<char>>
        },
        r is Err ==> r->Err_0 is InvalidParams,
{
    if context.supporting_claim_count < minimum {
        let digits = decimal_string(minimum);
        let message = concat3(
            "identity auto-reflection requires at least ",
            digits.as_str(),
            " supporting claims",
        );
        return Err(AppError::InvalidParams(message));
    }
    Ok(())
}

/// The support spans at least `minimum` episodes.
pub fn ensure_cross_episode_support(context: &IdentityRevisionContext, minimum: usize) -> (r:
    Result<(), AppError>)
    ensures
        check_outcome(r) == if context.cross_episode_support_count < minimum {
            Some(
                "identity auto-reflection requires support across at least "@ + decimal(
                    minimum as nat,
                ) + " episodes"@,
            )
        } else {
            None::<Seq<char>>
        },
        r is Err ==> r->Err_0 is InvalidParams,
{
    if context.cross_episode_support_count < minimum {
        let digits = decimal_string(minimum);
        let message = concat3(
            "identity auto-reflection requires support across at least ",
            digits.as_str(),
            " episodes",
        );
        return Err(AppError::InvalidParams(message));
    }
    Ok(())
}

/// No active claim conflicts with the proposed values.
pub fn ensure_no_high_conflict(context: &IdentityRevisionContext) -> (r: Result<(), AppError>)
    ensures
        check_outcome(r) == if context.has_high_conflict {
            Some(
                "identity auto-reflection cannot proceed while high-conflict evidence remains active for "@
                    + debug_string_list(texts(context.proposed_values@)),
            )
        } else {
            None::<Seq<char>>
        },
        r is Err ==> r->Err_0 is InvalidParams,
{
    if context.has_high_conflict {
        let listed = format_debug_list(context.proposed_values.as_slice());
        let message = crate::text::concat_str(
            "identity auto-reflection cannot proceed while high-conflict evidence remains active for ",
            listed.as_str(),
        );
        return Err(AppError::InvalidParams(message));
    }
    Ok(())
}

/// No cooldown is live and no revision was handled within the last 24 hours.
pub fn ensure_identity_cooldown_elapsed(context: &IdentityRevisionContext) -> (r: Result<
    (),
    AppError,
>)
    ensures
        check_outcome(r) == if context.cooldown_until matches Some(c) && ts_before(
            context.now,
            c,
        ) {
            Some("identity auto-reflection cooldown has not elapsed"@)
        } else if context.latest_handled_at matches Some(h) && within_a_day_of(h, context.now) {
            Some("identity auto-reflection handled too recently"@)
        } else {
            None::<Seq<char>>
        },
        r is Err ==> r->Err_0 is InvalidParams,
{
    let cooling = match context.cooldown_until {
        Some(c) => context.now.is_before(&c),
        None => false,
    };
    if cooling {
        return Err(AppError::invalid("identity auto-reflection cooldown has not elapsed"));
    }
    let recent = match context.latest_handled_at {
        Some(h) => is_within_a_day_of(h, context.now),
        None => false,
    };
    if recent {
        return Err(AppError::invalid("identity auto-reflection handled too recently"));
    }
    Ok(())
}

/// The patch holds between 1 and `maximum` claims.
pub fn ensure_identity_patch_limit(context: &IdentityRevisionContext, maximum: usize) -> (r:
    Result<(), AppError>)
    ensures
        check_outcome(r) == if context.patch_size == 0 || context.patch_size > maximum {
            Some(
                "identity auto-reflection patch must contain between 1 and "@ + decimal(
                    maximum as nat,
                ) + " claims"@,
            )
        } else {
            None::<Seq<char>>
        },
        r is Err ==> r->Err_0 is InvalidParams,
{
    if context.patch_size == 0 || context.patch_size > maximum {
        let digits = decimal_string(maximum);
        let message = concat3(
            "identity auto-reflection patch must contain between 1 and ",
            digits.as_str(),
            " claims",
        );
        return Err(AppError::InvalidParams(message));
    }
    Ok(())
}

/// The identity claims a proposal would write, as the patch gives them.
pub fn materialize_identity_claims(proposal: &SelfRevisionProposal) -> (r: Vec<String>)
    ensures
        texts(r@) == proposed_identity_claims(*proposal),
{
    match &proposal.machine_patch.identity_patch {
        Some(patch) => copy_strings(patch.canonical_claims.as_slice()),
        None => {
            let r: Vec<String> = Vec::new();
            assert(texts(r@) =~= Seq::<Seq<char>>::empty());
            r
        },
    }
}

/// The identity claims of a proposal that passes governance: at least three
/// supporting claims, across at least two episodes, no conflict, no cooldown,
/// nothing handled within a day, and one or two claims.
pub fn validate_identity_patch(proposal: &SelfRevisionProposal, context: &IdentityRevisionContext) -> (r:
    Result<Vec<String>, AppError>)
    ensures
        match r {
            Ok(claims) => identity_rejection(*context, 3, 2, 2) is None && texts(claims@)
                == proposed_identity_claims(*proposal),
            Err(e) => e is InvalidParams && identity_rejection(*context, 3, 2, 2) == Some(
                e.message_view(),
            ),
        },
{
    if let Err(e) = ensure_min_supporting_claims(context, 3) {
        return Err(e);
    }
    if let Err(e) = ensure_cross_episode_support(context, 2) {
        return Err(e);
    }
    if let Err(e) = ensure_no_high_conflict(context) {
        return Err(e);
    }
    if let Err(e) = ensure_identity_cooldown_elapsed(context) {
        return Err(e);
    }
    if let Err(e) = ensure_identity_patch_limit(context, 2) {
        return Err(e);
    }
    Ok(materialize_identity_claims(proposal))
}

} // verus!
