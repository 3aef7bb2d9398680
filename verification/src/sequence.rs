//! Whole sequences of attributes, as a packet body carries them. The order
//! of the input is the order of the output.

use crate::attribute::{Attribute, AttributeView};
use crate::decode::{decode, decode_spec};
use crate::encode::{encode, encode_spec};
use crate::error::ConversionError;
use crate::wire::{RawAvp, RawAvpView};
use vstd::prelude::*;

verus! {

/// What to do about a pair that does not decode.
#[derive(Debug, Clone, Copy, PartialEq, Eq, Hash, Structural)]
pub enum DecodeMode {
    /// Stop at the first pair that does not decode, and report its error.
    FailFast,
    /// Decode every pair by itself; keep the attributes and every error.
    CollectErrors,
}

/// What decoding a sequence gave, by mode.
#[derive(Debug, PartialEq, Eq)]
pub enum DecodedSequence {
    /// Under [`DecodeMode::FailFast`]: every attribute, or the first error.
    FailFast(Result<Vec<Attribute>, ConversionError>),
    /// Under [`DecodeMode::CollectErrors`]: the attributes that decoded and
    /// the errors of the pairs that did not, each in the order of the input.
    Collected(Vec<Attribute>, Vec<ConversionError>),
}

/// A sequence of attributes, each as a mathematical value.
pub open spec fn attribute_views(attributes: Seq<Attribute>) -> Seq<AttributeView> {
    attributes.map_values(|a: Attribute| a@)
}

/// A sequence of pairs, each as a mathematical value.
pub open spec fn avp_views(avps: Seq<RawAvp>) -> Seq<RawAvpView> {
    avps.map_values(|avp: RawAvp| avp@)
}

/// The attributes of the pairs that decode, in the order of the pairs.
pub open spec fn successes(avps: Seq<RawAvpView>) -> Seq<AttributeView>
    decreases avps.len(),
{
    if avps.len() == 0 {
        Seq::empty()
    } else {
        let before = successes(avps.drop_last());
        match decode_spec(avps.last()) {
            Ok(attribute) => before.push(attribute),
            Err(_) => before,
        }
    }
}

/// The errors of the pairs that do not decode, in the order of the pairs.
pub open spec fn failures(avps: Seq<RawAvpView>) -> Seq<ConversionError>
    decreases avps.len(),
{
    if avps.len() == 0 {
        Seq::empty()
    } else {
        let before = failures(avps.drop_last());
        match decode_spec(avps.last()) {
            Ok(_) => before,
            Err(e) => before.push(e),
        }
    }
}

/// The error of the first pair that does not decode, if there is one.
pub open spec fn first_failure(avps: Seq<RawAvpView>) -> Option<ConversionError> {
    if failures(avps).len() == 0 {
        None
    } else {
        Some(failures(avps)[0])
    }
}

/// Every pair either decodes or fails: the two counts add up to the number
/// of pairs.
pub proof fn lemma_counts(avps: Seq<RawAvpView>)
    ensures
        successes(avps).len() + failures(avps).len() == avps.len(),
    decreases avps.len(),
{
    if avps.len() > 0 {
        lemma_counts(avps.drop_last());
    }
}

/// Decoding one sequence after another gives the attributes of the first,
/// then those of the second; and so for the errors. So both come out in the
/// order of the input.
pub proof fn lemma_concat(first: Seq<RawAvpView>, second: Seq<RawAvpView>)
    ensures
        successes(first + second) == successes(first) + successes(second),
        failures(first + second) == failures(first) + failures(second),
    decreases second.len(),
{
    if second.len() == 0 {
        assert(first + second =~= first);
        assert(successes(first) + successes(second) =~= successes(first));
        assert(failures(first) + failures(second) =~= failures(first));
    } else {
        let all = first + second;
        assert(all.drop_last() =~= first + second.drop_last());
        assert(all.last() == second.last());
        lemma_concat(first, second.drop_last());
        assert(successes(all) =~= successes(first) + successes(second));
        assert(failures(all) =~= failures(first) + failures(second));
    }
}

/// Where there is no failure, every pair decodes, and the attributes are
/// those of the pairs, place by place.
pub proof fn lemma_no_failure(avps: Seq<RawAvpView>)
    requires
        failures(avps).len() == 0,
    ensures
        successes(avps).len() == avps.len(),
        forall|i: int|
            0 <= i < avps.len() ==> decode_spec(#[trigger] avps[i]) == Ok::<
                AttributeView,
                ConversionError,
            >(successes(avps)[i]),
    decreases avps.len(),
{
    if avps.len() > 0 {
        lemma_no_failure(avps.drop_last());
        assert forall|i: int| 0 <= i < avps.len() implies decode_spec(#[trigger] avps[i]) == Ok::<
            AttributeView,
            ConversionError,
        >(successes(avps)[i]) by {
            if i < avps.len() - 1 {
                assert(avps[i] == avps.drop_last()[i]);
            }
        }
    }
}

/// The first failure is the error of a pair before which every pair
/// decodes.
pub proof fn lemma_first_failure(avps: Seq<RawAvpView>) -> (at: int)
    requires
        failures(avps).len() > 0,
    ensures
        0 <= at < avps.len(),
        decode_spec(avps[at]) == Err::<AttributeView, ConversionError>(failures(avps)[0]),
        forall|j: int| 0 <= j < at ==> decode_spec(#[trigger] avps[j]) is Ok,
    decreases avps.len(),
{
    let before = avps.drop_last();
    if failures(before).len() > 0 {
        let at = lemma_first_failure(before);
        assert forall|j: int| 0 <= j < at implies decode_spec(#[trigger] avps[j]) is Ok by {
            assert(avps[j] == before[j]);
        }
        at
    } else {
        lemma_no_failure(before);
        assert forall|j: int| 0 <= j < avps.len() - 1 implies decode_spec(
            #[trigger] avps[j],
        ) is Ok by {
            assert(avps[j] == before[j]);
        }
        avps.len() - 1
    }
}

/// The place in `avps` of the pair that gave the attribute at place `k` of
/// [`successes`].
pub open spec fn source_of(avps: Seq<RawAvpView>, k: int) -> int
    recommends
        0 <= k < successes(avps).len(),
    decreases avps.len(),
{
    if avps.len() == 0 {
        0
    } else if decode_spec(avps.last()) is Ok && k == successes(avps.drop_last()).len() {
        avps.len() - 1
    } else {
        source_of(avps.drop_last(), k)
    }
}

/// Every attribute that came out was decoded from the pair at its source.
pub proof fn lemma_source(avps: Seq<RawAvpView>, k: int)
    requires
        0 <= k < successes(avps).len(),
    ensures
        0 <= source_of(avps, k) < avps.len(),
        decode_spec(avps[source_of(avps, k)]) == Ok::<AttributeView, ConversionError>(
            successes(avps)[k],
        ),
    decreases avps.len(),
{
    let before = avps.drop_last();
    if decode_spec(avps.last()) is Ok && k == successes(before).len() {
    } else {
        lemma_source(before, k);
        assert(avps[source_of(before, k)] == before[source_of(before, k)]);
    }
}

/// Order is kept: of two attributes that came out, the earlier was decoded
/// from the earlier pair.
pub proof fn lemma_order_preserved(avps: Seq<RawAvpView>, j: int, k: int)
    requires
        0 <= j < k < successes(avps).len(),
    ensures
        0 <= source_of(avps, j) < source_of(avps, k) < avps.len(),
    decreases avps.len(),
{
    let before = avps.drop_last();
    if decode_spec(avps.last()) is Ok && k == successes(before).len() {
        lemma_source(before, j);
    } else {
        lemma_order_preserved(before, j, k);
    }
}

/// Decodes every pair, or stops at the first that does not decode.
///
/// `Ok` holds one attribute for each pair, in order. `Err` holds the error
/// of the first pair that does not decode.
pub fn decode_fail_fast(avps: Vec<RawAvp>) -> (r: Result<Vec<Attribute>, ConversionError>)
    ensures
        match r {
            Ok(attributes) => {
                &&& first_failure(avp_views(avps@)) is None
                &&& attribute_views(attributes@) == successes(avp_views(avps@))
                &&& attributes@.len() == avps@.len()
            },
            Err(e) => first_failure(avp_views(avps@)) == Some(e),
        },
{
    let ghost all = avp_views(avps@);
    let mut attributes: Vec<Attribute> = Vec::new();
    for avp in it: avps.into_iter()
        invariant
            avp_views(it.seq()) == all,
            failures(all.take(it.index() as int)).len() == 0,
            attribute_views(attributes@) == successes(all.take(it.index() as int)),
    {
        let ghost i = it.index() as int;
        proof {
            assert(all[i] == avp@);
            assert(all.take(i + 1).drop_last() =~= all.take(i));
            assert(all.take(i + 1).last() == all[i]);
        }
        match decode(avp) {
            Ok(attribute) => {
                attributes.push(attribute);
                proof {
                    assert(attribute_views(attributes@) =~= successes(all.take(i + 1)));
                }
            },
            Err(e) => {
                proof {
                    assert(failures(all.take(i + 1)) =~= seq![e]);
                    assert(all =~= all.take(i + 1) + all.skip(i + 1));
                    lemma_concat(all.take(i + 1), all.skip(i + 1));
                }
                return Err(e);
            },
        }
    }
    proof {
        assert(all.take(all.len() as int) =~= all);
        lemma_counts(all);
    }
    Ok(attributes)
}

/// Decodes every pair by itself.
///
/// Gives the attributes of the pairs that decode and the errors of those
/// that do not, each in the order of the pairs. The two together are as many
/// as the pairs.
pub fn decode_collect(avps: Vec<RawAvp>) -> (r: (Vec<Attribute>, Vec<ConversionError>))
    ensures
        attribute_views(r.0@) == successes(avp_views(avps@)),
        r.1@ == failures(avp_views(avps@)),
        r.0@.len() + r.1@.len() == avps@.len(),
{
    let ghost all = avp_views(avps@);
    let mut attributes: Vec<Attribute> = Vec::new();
    let mut errors: Vec<ConversionError> = Vec::new();
    for avp in it: avps.into_iter()
        invariant
            avp_views(it.seq()) == all,
            attribute_views(attributes@) == successes(all.take(it.index() as int)),
            errors@ == failures(all.take(it.index() as int)),
    {
        let ghost i = it.index() as int;
        proof {
            assert(all[i] == avp@);
            assert(all.take(i + 1).drop_last() =~= all.take(i));
            assert(all.take(i + 1).last() == all[i]);
        }
        match decode(avp) {
            Ok(attribute) => {
                attributes.push(attribute);
                proof {
                    assert(attribute_views(attributes@) =~= successes(all.take(i + 1)));
                }
            },
            Err(e) => {
                errors.push(e);
            },
        }
    }
    proof {
        assert(all.take(all.len() as int) =~= all);
        lemma_counts(all);
    }
    (attributes, errors)
}

/// Decodes a sequence of pairs under `mode`, keeping their order.
pub fn decode_sequence(avps: Vec<RawAvp>, mode: DecodeMode) -> (r: DecodedSequence)
    ensures
        mode is FailFast ==> (r matches DecodedSequence::FailFast(outcome) && match outcome {
            Ok(attributes) => {
                &&& first_failure(avp_views(avps@)) is None
                &&& attribute_views(attributes@) == successes(avp_views(avps@))
                &&& attributes@.len() == avps@.len()
            },
            Err(e) => first_failure(avp_views(avps@)) == Some(e),
        }),
        mode is CollectErrors ==> (r matches DecodedSequence::Collected(attributes, errors) && {
            &&& attribute_views(attributes@) == successes(avp_views(avps@))
            &&& errors@ == failures(avp_views(avps@))
            &&& attributes@.len() + errors@.len() == avps@.len()
        }),
{
    match mode {
        DecodeMode::FailFast => DecodedSequence::FailFast(decode_fail_fast(avps)),
        DecodeMode::CollectErrors => {
            let (attributes, errors) = decode_collect(avps);
            DecodedSequence::Collected(attributes, errors)
        },
    }
}

/// Whether every attribute of a sequence encodes.
pub open spec fn all_encode(attributes: Seq<AttributeView>) -> bool {
    forall|i: int| 0 <= i < attributes.len() ==> encode_spec(#[trigger] attributes[i]) is Ok
}

/// The pairs that the attributes of a sequence encode to, place by place.
pub open spec fn encoded(attributes: Seq<AttributeView>) -> Seq<RawAvpView>
    recommends
        all_encode(attributes),
{
    Seq::new(attributes.len(), |i: int| encode_spec(attributes[i])->Ok_0)
}

/// Encodes every attribute, keeping the order.
///
/// `Ok` holds one pair for each attribute, in order. Where an attribute does
/// not encode, which only text longer than 253 bytes does not, the result is
/// `ValueLengthInvalid`.
pub fn encode_sequence(attributes: Vec<Attribute>) -> (r: Result<Vec<RawAvp>, ConversionError>)
    ensures
        match r {
            Ok(avps) => {
                &&& all_encode(attribute_views(attributes@))
                &&& avp_views(avps@) == encoded(attribute_views(attributes@))
            },
            Err(e) => {
                &&& !all_encode(attribute_views(attributes@))
                &&& e == ConversionError::ValueLengthInvalid
            },
        },
{
    let ghost all = attribute_views(attributes@);
    let mut avps: Vec<RawAvp> = Vec::new();
    for attribute in it: attributes.into_iter()
        invariant
            attribute_views(it.seq()) == all,
            avps@.len() == it.index(),
            forall|j: int| 0 <= j < it.index() ==> encode_spec(#[trigger] all[j]) is Ok,
            forall|j: int|
                0 <= j < it.index() ==> (#[trigger] avps@[j])@ == encode_spec(all[j])->Ok_0,
    {
        let ghost i = it.index() as int;
        proof {
            assert(all[i] == attribute@);
        }
        match encode(attribute) {
            Ok(avp) => {
                avps.push(avp);
            },
            Err(e) => {
                proof {
                    assert(!(encode_spec(all[i]) is Ok));
                }
                return Err(e);
            },
        }
    }
    proof {
        assert(avp_views(avps@) =~= encoded(all));
    }
    Ok(avps)
}

} // verus!
