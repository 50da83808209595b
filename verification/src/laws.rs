use vstd::prelude::*;
use vstd::assert_seqs_equal;
use crate::machine::{airdrop_requests, balance_queries, is_balance_query, spec_run, valid_run};
use crate::machine::{Event, Failure, Minter, Stage};

verus! {

/// Stages in which the funding phase is over for good: mint creation
/// and everything after it, including a halt. No transition leads
/// from any of them back to a balance query or a funding request.
pub open spec fn past_funding(m: Minter) -> bool {
    match m.stage {
        Stage::CreateMint | Stage::CreateTokenAccount | Stage::MintToken | Stage::CreateMetadata
            | Stage::CreateMasterEdition | Stage::Complete | Stage::Failed { .. } => true,
        _ => false,
    }
}

/// Once the funding phase is over, no later step of any valid run
/// queries the balance or requests funds, and the run stays past the
/// funding phase.
pub proof fn lemma_past_funding_quiet(m: Minter, events: Seq<Event>)
    requires
        past_funding(m),
        valid_run(m, events),
    ensures
        balance_queries(m, events) == 0,
        airdrop_requests(m, events) == 0,
        past_funding(spec_run(m, events)),
    decreases events.len(),
{
    if events.len() > 0 {
        let m2 = m.spec_step(events[0]);
        assert(past_funding(m2));
        lemma_past_funding_quiet(m2, events.skip(1));
    }
}

/// From the moment a funding request has been answered — polling, or
/// any later stage — a valid run never issues another funding
/// request.
pub proof fn lemma_no_request_while_polling(m: Minter, events: Seq<Event>)
    requires
        m.stage is AwaitFunding || past_funding(m),
        valid_run(m, events),
    ensures
        airdrop_requests(m, events) == 0,
    decreases events.len(),
{
    if events.len() > 0 {
        let m2 = m.spec_step(events[0]);
        assert(m2.stage is AwaitFunding || past_funding(m2));
        lemma_no_request_while_polling(m2, events.skip(1));
    }
}

/// A run standing at the funding request issues it once and never
/// again.
pub proof fn lemma_request_stage_at_most_one(m: Minter, events: Seq<Event>)
    requires
        m.stage is RequestAirdrop,
        valid_run(m, events),
    ensures
        airdrop_requests(m, events) <= 1,
{
    if events.len() > 0 {
        let m2 = m.spec_step(events[0]);
        assert(m2.stage is AwaitFunding || past_funding(m2));
        lemma_no_request_while_polling(m2, events.skip(1));
    }
}

/// The funding waiter never issues a second funding request: from the
/// first balance query on, every valid run — whatever balances the
/// ledger reports — issues at most one.
pub proof fn lemma_waiter_at_most_one_request(m: Minter, events: Seq<Event>)
    requires
        m.stage is CheckBalance,
        valid_run(m, events),
    ensures
        airdrop_requests(m, events) <= 1,
{
    if events.len() > 0 {
        let m2 = m.spec_step(events[0]);
        if m2.stage is RequestAirdrop {
            lemma_request_stage_at_most_one(m2, events.skip(1));
        } else {
            assert(past_funding(m2));
            lemma_past_funding_quiet(m2, events.skip(1));
        }
    }
}

/// The whole-run form: from the very start, at most one funding
/// request is ever issued.
pub proof fn lemma_run_at_most_one_request(m: Minter, events: Seq<Event>)
    requires
        m.stage is LoadWallet,
        valid_run(m, events),
    ensures
        airdrop_requests(m, events) <= 1,
{
    if events.len() > 0 {
        let m2 = m.spec_step(events[0]);
        if m2.stage is CheckBalance {
            lemma_waiter_at_most_one_request(m2, events.skip(1));
        } else {
            assert(past_funding(m2));
            lemma_past_funding_quiet(m2, events.skip(1));
        }
    }
}

/// Funding waiter no-op property: when the first balance query
/// reports a positive balance, the waiter moves straight to mint
/// creation; over the whole remaining run it has made exactly that
/// one balance query and issued no funding request.
pub proof fn lemma_funding_waiter_no_op(m: Minter, events: Seq<Event>, lamports: u64)
    requires
        m.stage is CheckBalance,
        valid_run(m, events),
        events.len() > 0,
        events[0] == (Event::Balance { lamports }),
        lamports > 0,
    ensures
        m.spec_step(events[0]).stage is CreateMint,
        balance_queries(m, events) == 1,
        airdrop_requests(m, events) == 0,
{
    let m2 = m.spec_step(events[0]);
    assert(past_funding(m2));
    lemma_past_funding_quiet(m2, events.skip(1));
    assert(is_balance_query(m.spec_pending()));
}

/// The balance reports of a poll that sees `zeros` empty answers and
/// then one of `lamports`.
pub open spec fn poll_reports(zeros: nat, lamports: u64) -> Seq<Event> {
    Seq::new(zeros, |i: int| Event::Balance { lamports: 0 }).push(Event::Balance { lamports })
}

/// A poll that sees `zeros` empty answers and then a positive one
/// ends at mint creation, having queried the balance once per answer
/// and requested funds never.
pub proof fn lemma_poll_counts(m: Minter, zeros: nat, lamports: u64)
    requires
        m.stage is AwaitFunding,
        lamports > 0,
    ensures
        spec_run(m, poll_reports(zeros, lamports)).stage is CreateMint,
        balance_queries(m, poll_reports(zeros, lamports)) == zeros + 1,
        airdrop_requests(m, poll_reports(zeros, lamports)) == 0,
    decreases zeros,
{
    let events = poll_reports(zeros, lamports);
    if zeros == 0 {
        assert(events.len() == 1);
        assert(events[0] == (Event::Balance { lamports }));
        let m2 = m.spec_step(events[0]);
        assert(m2.stage is CreateMint);
        let rest = events.skip(1);
        assert(rest.len() == 0);
        assert(spec_run(m2, rest) == m2);
        assert(balance_queries(m2, rest) == 0);
        assert(airdrop_requests(m2, rest) == 0);
        assert(spec_run(m, events) == spec_run(m2, rest));
        assert(balance_queries(m, events) == 1 + balance_queries(m2, rest));
        assert(airdrop_requests(m, events) == airdrop_requests(m2, rest));
    } else {
        assert(events.len() == zeros + 1);
        assert(events[0] == (Event::Balance { lamports: 0u64 }));
        let m2 = m.spec_step(events[0]);
        assert(m2.stage is AwaitFunding);
        let rest = events.skip(1);
        assert_seqs_equal!(rest == poll_reports((zeros - 1) as nat, lamports));
        lemma_poll_counts(m2, (zeros - 1) as nat, lamports);
        assert(spec_run(m, events) == spec_run(m2, rest));
        assert(balance_queries(m, events) == 1 + balance_queries(m2, rest));
        assert(airdrop_requests(m, events) == airdrop_requests(m2, rest));
    }
}

/// Funding waiter poll property, in full: a zero first balance, an
/// accepted funding request, `zeros` empty polls and then a positive
/// one. The waiter issues exactly one funding request, queries the
/// balance exactly once per report, and ends at mint creation with
/// the last query.
pub proof fn lemma_funding_waiter_poll(m: Minter, zeros: nat, lamports: u64)
    requires
        m.stage is CheckBalance,
        lamports > 0,
    ensures
        ({
            let events = seq![Event::Balance { lamports: 0u64 }, Event::AirdropAccepted]
                + poll_reports(zeros, lamports);
            &&& spec_run(m, events).stage is CreateMint
            &&& balance_queries(m, events) == zeros + 2
            &&& airdrop_requests(m, events) == 1
        }),
{
    let events = seq![Event::Balance { lamports: 0u64 }, Event::AirdropAccepted] + poll_reports(
        zeros,
        lamports,
    );
    assert(events[0] == (Event::Balance { lamports: 0u64 }));
    let m1 = m.spec_step(events[0]);
    assert(m1.stage is RequestAirdrop);
    let rest1 = events.skip(1);
    assert_seqs_equal!(rest1 == seq![Event::AirdropAccepted] + poll_reports(zeros, lamports));
    assert(rest1[0] == Event::AirdropAccepted);
    let m2 = m1.spec_step(rest1[0]);
    assert(m2.stage is AwaitFunding);
    let rest2 = rest1.skip(1);
    assert_seqs_equal!(rest2 == poll_reports(zeros, lamports));
    lemma_poll_counts(m2, zeros, lamports);
    assert(spec_run(m, events) == spec_run(m1, rest1));
    assert(spec_run(m1, rest1) == spec_run(m2, rest2));
    assert(balance_queries(m, events) == 1 + balance_queries(m1, rest1));
    assert(balance_queries(m1, rest1) == balance_queries(m2, rest2));
    assert(airdrop_requests(m, events) == airdrop_requests(m1, rest1));
    assert(airdrop_requests(m1, rest1) == 1 + airdrop_requests(m2, rest2));
}

/// A zero balance keeps the poll going; a positive one ends the
/// waiter and moves the run to mint creation.
pub proof fn lemma_poll_progress(m: Minter, lamports: u64)
    requires
        m.stage is AwaitFunding,
    ensures
        lamports == 0 ==> m.spec_step(Event::Balance { lamports }).stage is AwaitFunding,
        lamports > 0 ==> m.spec_step(Event::Balance { lamports }).stage is CreateMint,
{
}

/// A halted run is final: no event is accepted any more, so every
/// valid continuation is empty and the state never changes again.
pub proof fn lemma_failed_is_final(m: Minter, events: Seq<Event>)
    requires
        m.stage is Failed,
        valid_run(m, events),
    ensures
        events.len() == 0,
        spec_run(m, events) == m,
{
    if events.len() > 0 {
        assert(!m.accepts(events[0]));
    }
}

/// Negative scenario: a zero balance followed by a rejected funding
/// request halts the run with the airdrop-denied kind, before any
/// account-creation stage: no mint and no token account identifier
/// exists, and nothing is pending.
pub proof fn lemma_airdrop_denied_halts(m: Minter)
    requires
        m.wf(),
        m.stage is CheckBalance,
    ensures
        ({
            let m1 = m.spec_step(Event::Balance { lamports: 0 });
            let m2 = m1.spec_step(Event::AirdropRejected);
            &&& m1.stage is RequestAirdrop
            &&& m2.stage == (Stage::Failed { reason: Failure::AirdropDenied })
            &&& m2.spec_pending() is None
            &&& m2.mint is None
            &&& m2.token_account is None
        }),
{
}

/// One step never rewrites what a run has already fixed: the
/// configuration is constant, and the wallet, mint and token-account
/// identifiers, once set, keep their values.
pub proof fn lemma_step_write_once(m: Minter, e: Event)
    requires
        m.wf(),
        m.accepts(e),
    ensures
        m.spec_step(e).config == m.config,
        m.wallet matches Some(w) ==> m.spec_step(e).wallet == Some(w),
        m.mint matches Some(x) ==> m.spec_step(e).mint == Some(x),
        m.token_account matches Some(t) ==> m.spec_step(e).token_account == Some(t),
        m.spec_step(e).wf(),
{
}

/// The whole-run form of write-once: over any valid run, the
/// configuration is constant and each identifier, once set, is the
/// one every later stage sees. In particular exactly one signing
/// identity is used for the whole run.
pub proof fn lemma_run_write_once(m: Minter, events: Seq<Event>)
    requires
        m.wf(),
        valid_run(m, events),
    ensures
        spec_run(m, events).config == m.config,
        m.wallet matches Some(w) ==> spec_run(m, events).wallet == Some(w),
        m.mint matches Some(x) ==> spec_run(m, events).mint == Some(x),
        m.token_account matches Some(t) ==> spec_run(m, events).token_account == Some(t),
        spec_run(m, events).wf(),
    decreases events.len(),
{
    if events.len() > 0 {
        let m2 = m.spec_step(events[0]);
        lemma_step_write_once(m, events[0]);
        lemma_run_write_once(m2, events.skip(1));
    }
}

} // verus!
