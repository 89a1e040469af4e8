//! The distribution set builder. The envelope is shielded once for each
//! custodian, in the order in which the custodians were given, and each
//! result is paired with its custodian's identity. The first failure ends
//! the work: no further request is made and no piece is handed out.
//!
//! The asymmetric encryption is the caller's to perform, so the builder
//! works in steps. Each step hands out either the next request, with the
//! state in which its answer is awaited, or the end of the work.

use vstd::prelude::*;
use crate::error::EnvelopeError;
use crate::layout::copy_range;
use crate::layout::Sha256PrivateKeyHash;
use crate::layout::ShieldedKey;
use crate::shield::accept_shielded;
use crate::shield::answer_view;
use crate::shield::is_public_key;
use crate::shield::payload_request;
use crate::shield::request_outcome;
use crate::shield::shielded_outcome;
use crate::shield::shielded_size;
use crate::shield::ShieldRequest;
use crate::shield::ShieldRequestView;
use crate::shield::MAX_SHIELD_PAYLOAD;

verus! {

/// One who holds a private key and is to receive a shielded copy of the
/// envelope.
#[derive(Clone, PartialEq, Eq, Debug)]
pub struct Custodian {
    pub identity: Vec<u8>,
    pub public_key: Vec<u8>,
}

/// A custodian as plain byte strings.
pub struct CustodianView {
    pub identity: Seq<u8>,
    pub public_key: Seq<u8>,
}

impl View for Custodian {
    type V = CustodianView;

    open spec fn view(&self) -> CustodianView {
        CustodianView { identity: self.identity@, public_key: self.public_key@ }
    }
}

/// The envelope as shielded for one custodian.
#[derive(Clone, PartialEq, Eq, Debug)]
pub struct ShieldedKeyPiece {
    pub holder: Vec<u8>,
    pub shielded: ShieldedKey,
}

/// A piece as plain byte strings.
pub struct KeyPieceView {
    pub holder: Seq<u8>,
    pub shielded: Seq<u8>,
}

impl View for ShieldedKeyPiece {
    type V = KeyPieceView;

    open spec fn view(&self) -> KeyPieceView {
        KeyPieceView { holder: self.holder@, shielded: self.shielded@ }
    }
}

/// Custodians as plain values, in their order.
pub open spec fn custodian_views(custodians: Seq<Custodian>) -> Seq<CustodianView> {
    custodians.map_values(|c: Custodian| c@)
}

/// Pieces as plain values, in their order.
pub open spec fn piece_views(pieces: Seq<ShieldedKeyPiece>) -> Seq<KeyPieceView> {
    pieces.map_values(|p: ShieldedKeyPiece| p@)
}

/// Where the work stands.
pub enum ProgressView {
    /// The request for the custodian that follows those served is out.
    Pending {
        custodians: Seq<CustodianView>,
        payload: Seq<u8>,
        pieces: Seq<KeyPieceView>,
        request: ShieldRequestView,
    },
    /// Every custodian has been served.
    Done { pieces: Seq<KeyPieceView> },
    /// A step failed.
    Failed { error: EnvelopeError },
}

/// The piece for the custodian that follows those served.
pub open spec fn next_piece(
    custodians: Seq<CustodianView>,
    pieces: Seq<KeyPieceView>,
    shielded: Seq<u8>,
) -> KeyPieceView {
    KeyPieceView { holder: custodians[pieces.len() as int].identity, shielded }
}

/// What preparing the request for the custodian that follows those served
/// comes to.
pub open spec fn next_request(
    custodians: Seq<CustodianView>,
    payload: Seq<u8>,
    pieces: Seq<KeyPieceView>,
) -> Result<ShieldRequestView, EnvelopeError> {
    request_outcome(payload, custodians[pieces.len() as int].public_key)
}

/// Where the work stands once the custodians before `pieces.len()` have been
/// served with `pieces`: at its end where none is left, else at the request
/// for the next one, or at the failure to prepare it.
pub open spec fn progress_after(
    custodians: Seq<CustodianView>,
    payload: Seq<u8>,
    pieces: Seq<KeyPieceView>,
) -> ProgressView {
    if pieces.len() >= custodians.len() {
        ProgressView::Done { pieces }
    } else {
        match next_request(custodians, payload, pieces) {
            Ok(request) => ProgressView::Pending { custodians, payload, pieces, request },
            Err(error) => ProgressView::Failed { error },
        }
    }
}

/// Where the work stands after the answer to the request that is out. Work
/// that has ended stays where it is.
pub open spec fn progress_step(progress: ProgressView, answer: Option<Seq<u8>>) -> ProgressView {
    match progress {
        ProgressView::Pending { custodians, payload, pieces, request } => {
            match shielded_outcome(payload.len(), answer) {
                Ok(shielded) => progress_after(
                    custodians,
                    payload,
                    pieces.push(next_piece(custodians, pieces, shielded)),
                ),
                Err(error) => ProgressView::Failed { error },
            }
        },
        _ => progress,
    }
}

/// Where the work stands after a run of answers, taken in their order.
pub open spec fn progress_run(progress: ProgressView, answers: Seq<Option<Seq<u8>>>) -> ProgressView
    decreases answers.len(),
{
    if answers.len() == 0 {
        progress
    } else {
        progress_run(progress_step(progress, answers[0]), answers.drop_first())
    }
}

/// Where building a distribution set starts.
pub open spec fn distribution_start(custodians: Seq<CustodianView>, payload: Seq<u8>) -> ProgressView {
    progress_after(custodians, payload, Seq::empty())
}

/// The pieces belong, one for one and in order, to the custodians served so
/// far, and each holds as many bytes as the payload calls for.
pub open spec fn pieces_match(
    custodians: Seq<CustodianView>,
    payload_len: nat,
    pieces: Seq<KeyPieceView>,
) -> bool {
    &&& pieces.len() <= custodians.len()
    &&& forall|i: int|
        0 <= i < pieces.len() ==> {
            &&& (#[trigger] pieces[i]).holder == custodians[i].identity
            &&& pieces[i].shielded.len() == shielded_size(payload_len)
        }
}

/// The state in which the answer to a request is awaited.
pub struct DistributionBuilder {
    custodians: Vec<Custodian>,
    payload: Vec<u8>,
    pieces: Vec<ShieldedKeyPiece>,
}

/// Where the work stands: at a request, with the state that awaits its
/// answer, or at its end.
pub enum BuildProgress {
    Pending(DistributionBuilder, ShieldRequest),
    Finished(Result<Vec<ShieldedKeyPiece>, EnvelopeError>),
}

impl View for DistributionBuilder {
    type V = ProgressView;

    closed spec fn view(&self) -> ProgressView {
        ProgressView::Pending {
            custodians: custodian_views(self.custodians@),
            payload: self.payload@,
            pieces: piece_views(self.pieces@),
            request: next_request(
                custodian_views(self.custodians@),
                self.payload@,
                piece_views(self.pieces@),
            )->Ok_0,
        }
    }
}

impl View for BuildProgress {
    type V = ProgressView;

    open spec fn view(&self) -> ProgressView {
        match *self {
            BuildProgress::Pending(builder, request) => ProgressView::Pending {
                custodians: builder@->custodians,
                payload: builder@->payload,
                pieces: builder@->Pending_pieces,
                request: request@,
            },
            BuildProgress::Finished(Ok(pieces)) => ProgressView::Done {
                pieces: piece_views(pieces@),
            },
            BuildProgress::Finished(Err(error)) => ProgressView::Failed { error },
        }
    }
}

/// A state that a step can have led to: the pieces match the custodians
/// served, and while a request is out it is one that could be prepared.
pub open spec fn progress_sound(progress: ProgressView) -> bool {
    match progress {
        ProgressView::Pending { custodians, payload, pieces, request } => {
            &&& pieces.len() < custodians.len()
            &&& pieces_match(custodians, payload.len(), pieces)
            &&& next_request(custodians, payload, pieces) == Ok::<ShieldRequestView, EnvelopeError>(
                request,
            )
        },
        _ => true,
    }
}

impl DistributionBuilder {
    #[verifier::type_invariant]
    spec fn awaiting(&self) -> bool {
        progress_sound(self@)
    }

    /// The answer to the request that is out: the ciphertext that the
    /// asymmetric encryption returned, or nothing where it failed. The next
    /// request follows, or the end of the work.
    pub fn resume(self, answer: Option<Vec<u8>>) -> (progress: BuildProgress)
        ensures
            progress@ == progress_step(self@, answer_view(answer)),
            progress_sound(progress@),
            progress matches BuildProgress::Pending(builder, _) ==> builder@ == progress@,
    {
        proof {
            use_type_invariant(&self);
        }
        let ghost before = piece_views(self.pieces@);
        let ghost all = custodian_views(self.custodians@);
        let DistributionBuilder { custodians, payload, mut pieces } = self;
        match accept_shielded(payload.len(), answer) {
            Ok(shielded) => {
                let identity = &custodians[pieces.len()].identity;
                let holder = copy_range(identity.as_slice(), 0, identity.len());
                assert(holder@ == identity@);
                let piece = ShieldedKeyPiece { holder, shielded };
                pieces.push(piece);
                assert(piece_views(pieces@) == before.push(next_piece(all, before, shielded@)));
                advance(custodians, payload, pieces)
            },
            Err(error) => BuildProgress::Finished(Err(error)),
        }
    }
}

/// Moves on to the custodian that follows those served.
fn advance(custodians: Vec<Custodian>, payload: Vec<u8>, pieces: Vec<ShieldedKeyPiece>) -> (progress:
    BuildProgress)
    requires
        pieces_match(custodian_views(custodians@), payload@.len(), piece_views(pieces@)),
    ensures
        progress@ == progress_after(custodian_views(custodians@), payload@, piece_views(pieces@)),
        progress_sound(progress@),
        progress matches BuildProgress::Pending(builder, _) ==> builder@ == progress@,
{
    if pieces.len() >= custodians.len() {
        return BuildProgress::Finished(Ok(pieces));
    }
    let outcome = payload_request(payload.as_slice(), custodians[pieces.len()].public_key.as_slice());
    match outcome {
        Ok(request) => {
            let builder = DistributionBuilder { custodians, payload, pieces };
            BuildProgress::Pending(builder, request)
        },
        Err(error) => BuildProgress::Finished(Err(error)),
    }
}

/// Starts building the distribution set of an envelope: the first request,
/// or the end of the work where there is no custodian or the first request
/// cannot be prepared.
pub fn build(envelope: &Sha256PrivateKeyHash, custodians: Vec<Custodian>) -> (progress:
    BuildProgress)
    ensures
        progress@ == distribution_start(custodian_views(custodians@), envelope.encoding()),
        progress_sound(progress@),
        progress matches BuildProgress::Pending(builder, _) ==> builder@ == progress@,
{
    let payload = envelope.encode();
    let pieces: Vec<ShieldedKeyPiece> = Vec::new();
    assert(piece_views(pieces@) == Seq::<KeyPieceView>::empty());
    advance(custodians, payload, pieces)
}

/// What a run of answers makes of the state in which `pieces` have been
/// handed to the first custodians: where it completes the set, the set holds
/// `pieces` first, then one piece for each custodian left, in order, under
/// its custodian's identity and with the ciphertext that was answered for it.
proof fn lemma_run_from(
    custodians: Seq<CustodianView>,
    payload: Seq<u8>,
    pieces: Seq<KeyPieceView>,
    answers: Seq<Option<Seq<u8>>>,
)
    requires
        pieces_match(custodians, payload.len(), pieces),
    ensures
        progress_run(progress_after(custodians, payload, pieces), answers) matches ProgressView::Done {
            pieces: done,
        } ==> {
            &&& done.len() == custodians.len()
            &&& custodians.len() <= pieces.len() + answers.len()
            &&& pieces_match(custodians, payload.len(), done)
            &&& done.subrange(0, pieces.len() as int) == pieces
            &&& forall|i: int|
                pieces.len() <= i < done.len() ==> answers[i - pieces.len()] == Some(
                    (#[trigger] done[i]).shielded,
                )
        },
    decreases answers.len(),
{
    let start = progress_after(custodians, payload, pieces);
    if answers.len() == 0 {
        assert(pieces.subrange(0, pieces.len() as int) == pieces);
    } else {
        let rest = answers.drop_first();
        match start {
            ProgressView::Pending { .. } => {
                match shielded_outcome(payload.len(), answers[0]) {
                    Ok(shielded) => {
                        let more = pieces.push(next_piece(custodians, pieces, shielded));
                        assert(pieces_match(custodians, payload.len(), more));
                        lemma_run_from(custodians, payload, more, rest);
                        let end = progress_run(progress_after(custodians, payload, more), rest);
                        assert(end == progress_run(start, answers));
                        if let ProgressView::Done { pieces: done } = end {
                            assert(done.subrange(0, more.len() as int) == more);
                            assert forall|i: int| 0 <= i <= pieces.len() implies done[i]
                                == more[i] by {
                                assert(done.subrange(0, more.len() as int)[i] == done[i]);
                            }
                            assert(done.subrange(0, pieces.len() as int) == pieces);
                            assert forall|i: int| pieces.len() < i < done.len() implies answers[i
                                - pieces.len()] == Some((#[trigger] done[i]).shielded) by {
                                assert(rest[i - more.len()] == answers[i - pieces.len()]);
                            }
                        }
                    },
                    Err(error) => {
                        lemma_run_ended(ProgressView::Failed { error }, rest);
                    },
                }
            },
            _ => {
                lemma_run_ended(start, answers);
                assert(pieces.subrange(0, pieces.len() as int) == pieces);
            },
        }
    }
}

/// Work that has ended stays where it is, whatever is answered.
pub proof fn lemma_run_ended(progress: ProgressView, answers: Seq<Option<Seq<u8>>>)
    requires
        !(progress is Pending),
    ensures
        progress_run(progress, answers) == progress,
    decreases answers.len(),
{
    if answers.len() > 0 {
        lemma_run_ended(progress, answers.drop_first());
    }
}

/// A distribution set that a run of answers completes holds exactly one
/// piece for each custodian, in the custodians' order: each piece is under
/// its custodian's identity and holds the ciphertext that was answered for
/// that custodian.
pub proof fn lemma_distribution_complete(
    custodians: Seq<CustodianView>,
    payload: Seq<u8>,
    answers: Seq<Option<Seq<u8>>>,
)
    ensures
        progress_run(distribution_start(custodians, payload), answers) matches ProgressView::Done {
            pieces,
        } ==> {
            &&& pieces.len() == custodians.len()
            &&& custodians.len() <= answers.len()
            &&& forall|i: int|
                0 <= i < pieces.len() ==> {
                    &&& (#[trigger] pieces[i]).holder == custodians[i].identity
                    &&& answers[i] == Some(pieces[i].shielded)
                    &&& pieces[i].shielded.len() == shielded_size(payload.len())
                }
        },
{
    lemma_run_from(custodians, payload, Seq::empty(), answers);
}

/// An answer is one that a payload of `payload_len` bytes calls for.
pub open spec fn acceptable_answer(payload_len: nat, answer: Option<Seq<u8>>) -> bool {
    answer matches Some(bytes) && bytes.len() == shielded_size(payload_len)
}

/// What an acceptable answer for each custodian left makes of the state in
/// which `pieces` have been handed to the first custodians: the set is
/// completed.
proof fn lemma_run_succeeds_from(
    custodians: Seq<CustodianView>,
    payload: Seq<u8>,
    pieces: Seq<KeyPieceView>,
    answers: Seq<Option<Seq<u8>>>,
)
    requires
        payload.len() <= MAX_SHIELD_PAYLOAD,
        pieces.len() + answers.len() == custodians.len(),
        forall|i: int|
            pieces.len() <= i < custodians.len() ==> is_public_key(
                (#[trigger] custodians[i]).public_key,
            ),
        forall|j: int|
            0 <= j < answers.len() ==> acceptable_answer(payload.len(), #[trigger] answers[j]),
    ensures
        progress_run(progress_after(custodians, payload, pieces), answers) is Done,
    decreases answers.len(),
{
    if answers.len() > 0 {
        let rest = answers.drop_first();
        let first = custodians[pieces.len() as int];
        assert(is_public_key(first.public_key));
        assert(acceptable_answer(payload.len(), answers[0]));
        let more = pieces.push(next_piece(custodians, pieces, answers[0]->Some_0));
        assert forall|j: int| 0 <= j < rest.len() implies acceptable_answer(
            payload.len(),
            #[trigger] rest[j],
        ) by {
            assert(rest[j] == answers[j + 1]);
        }
        lemma_run_succeeds_from(custodians, payload, more, rest);
    }
}

/// Where every custodian's public key has the layout, the payload fits in
/// one block and there is an acceptable answer for each custodian, the
/// distribution set is completed.
pub proof fn lemma_distribution_succeeds(
    custodians: Seq<CustodianView>,
    payload: Seq<u8>,
    answers: Seq<Option<Seq<u8>>>,
)
    requires
        payload.len() <= MAX_SHIELD_PAYLOAD,
        answers.len() == custodians.len(),
        forall|i: int|
            0 <= i < custodians.len() ==> is_public_key((#[trigger] custodians[i]).public_key),
        forall|j: int|
            0 <= j < answers.len() ==> acceptable_answer(payload.len(), #[trigger] answers[j]),
    ensures
        progress_run(distribution_start(custodians, payload), answers) is Done,
{
    lemma_run_succeeds_from(custodians, payload, Seq::empty(), answers);
}

/// The first failure ends the work: where a request is out and its answer
/// is refused, the run ends in that refusal, whatever is answered after it.
pub proof fn lemma_distribution_fails_fast(
    progress: ProgressView,
    answers: Seq<Option<Seq<u8>>>,
)
    requires
        progress is Pending,
        answers.len() > 0,
        shielded_outcome(progress->payload.len(), answers[0]) is Err,
    ensures
        progress_run(progress, answers) == (ProgressView::Failed {
            error: shielded_outcome(progress->payload.len(), answers[0])->Err_0,
        }),
{
    lemma_run_ended(progress_step(progress, answers[0]), answers.drop_first());
}

} // verus!
