use vstd::prelude::*;
use vstd::string::*;
use vstd::utf8::*;

use crate::decimal::{decimal, is_decimal_text_of, lemma_decimal_is_text_of, push_decimal};
use crate::http::push_str_bytes;

verus! {

broadcast use vstd::string::group_string_axioms;

/// How many messages each load-test client sends.
pub const MESSAGES_PER_CLIENT: usize = 10;

/// The smallest number of clients a load test runs with.
pub const FIRST_CLIENT_COUNT: usize = 0;

/// The largest number of clients a load test runs with.
pub const LAST_CLIENT_COUNT: usize = 10000;

/// By how many clients one round of a load test exceeds the round before.
pub const CLIENT_COUNT_STEP: usize = 10;

/// The bytes of message number `message_number` sent by the client with
/// index `id`: `Client {id + 1} says: {message_number}`.
pub open spec fn client_message_bytes(id: nat, message_number: nat) -> Seq<u8> {
    encode_utf8("Client "@) + decimal(id + 1) + encode_utf8(" says: "@) + decimal(message_number)
}

/// The numbers of clients of the rounds of a load test, from `first` to
/// `last` included, `step` apart.
pub open spec fn client_count_rounds(first: nat, last: nat, step: nat) -> Seq<usize>
    recommends
        step > 0,
{
    if first <= last {
        Seq::new((((last - first) as nat) / step + 1) as nat, |i: int| (first + i * step) as usize)
    } else {
        Seq::empty()
    }
}

/// The header line of the load-test results file.
pub open spec fn results_header() -> Seq<u8> {
    encode_utf8("client_count,total_duration\n"@)
}

/// The line of the results file for a round: the number of clients, a comma,
/// the duration as the caller wrote it, and a line break.
pub open spec fn results_row(client_count: nat, duration: Seq<char>) -> Seq<u8> {
    decimal(client_count) + encode_utf8(","@) + encode_utf8(duration) + encode_utf8("\n"@)
}

/// Message number `message_number` of the client with index `id`.
pub fn client_message(id: usize, message_number: usize) -> (message: Vec<u8>)
    requires
        id < usize::MAX,
    ensures
        message@ == client_message_bytes(id as nat, message_number as nat),
{
    let mut message: Vec<u8> = Vec::new();
    push_str_bytes(&mut message, "Client ");
    push_decimal(&mut message, id + 1);
    push_str_bytes(&mut message, " says: ");
    push_decimal(&mut message, message_number);
    assert(message@ =~= client_message_bytes(id as nat, message_number as nat));
    message
}

/// The numbers of clients of the rounds of a load test, as
/// `(first..=last).step_by(step)` yields them.
pub fn client_counts(first: usize, last: usize, step: usize) -> (counts: Vec<usize>)
    requires
        step > 0,
    ensures
        counts@ == client_count_rounds(first as nat, last as nat, step as nat),
{
    let mut counts: Vec<usize> = Vec::new();
    if first > last {
        assert(counts@ =~= client_count_rounds(first as nat, last as nat, step as nat));
        return counts;
    }
    let mut next: usize = first;
    let ghost rounds = client_count_rounds(first as nat, last as nat, step as nat);
    loop
        invariant_except_break
            next == first + counts@.len() * step,
            counts@.len() < rounds.len(),
        invariant
            first <= last,
            step > 0,
            rounds == client_count_rounds(first as nat, last as nat, step as nat),
            first <= next <= last,
            forall|i: int| 0 <= i < counts@.len() ==> counts@[i] == rounds[i],
        ensures
            counts@ =~= rounds,
        decreases last - next,
    {
        proof {
            assert(rounds[counts@.len() as int] == next) by (nonlinear_arith)
                requires
                    next == first + counts@.len() * step,
                    rounds[counts@.len() as int] == (first + counts@.len() * step) as usize,
            ;
        }
        counts.push(next);
        if last - next < step {
            proof {
                let k = (counts@.len() - 1) as int;
                assert((last - first) as nat / (step as nat) == k) by (nonlinear_arith)
                    requires
                        next == first + k * step,
                        last - next < step,
                        first <= next <= last,
                        step > 0,
                        k >= 0,
                ;
            }
            break;
        }
        proof {
            let k = counts@.len() as int;
            assert(k < rounds.len()) by (nonlinear_arith)
                requires
                    next == first + (k - 1) * step,
                    last - next >= step,
                    rounds.len() == (last - first) as nat / (step as nat) + 1,
                    first <= next <= last,
                    step > 0,
                    k >= 1,
            ;
        }
        let ghost before = next;
        next = next + step;
        proof {
            let k = counts@.len() as int;
            assert(next == first + k * step) by (nonlinear_arith)
                requires
                    before == first + (k - 1) * step,
                    next == before + step,
            ;
        }
    }
    counts
}

/// The header line of the load-test results file.
pub fn results_header_line() -> (line: Vec<u8>)
    ensures
        line@ == results_header(),
{
    "client_count,total_duration\n".as_bytes_vec()
}

/// The line of the results file for a round of `client_count` clients that
/// took `duration` (already written as text).
pub fn results_row_line(client_count: usize, duration: &str) -> (line: Vec<u8>)
    ensures
        line@ == results_row(client_count as nat, duration@),
{
    let mut line: Vec<u8> = Vec::new();
    push_decimal(&mut line, client_count);
    push_str_bytes(&mut line, ",");
    push_str_bytes(&mut line, duration);
    push_str_bytes(&mut line, "\n");
    assert(line@ =~= results_row(client_count as nat, duration@));
    line
}

/// Message `message_number` of the client with index `id` is `Client `, the
/// client's number `id + 1` in decimal, ` says: `, and the message number in
/// decimal, both written as `{}` writes them.
pub proof fn lemma_client_message_fields(id: nat, message_number: nat)
    ensures
        exists|client_field: Seq<u8>, number_field: Seq<u8>|
            #[trigger] is_decimal_text_of(client_field, id + 1) && #[trigger] is_decimal_text_of(
                number_field,
                message_number,
            ) && client_message_bytes(id, message_number) == encode_utf8("Client "@) + client_field
                + encode_utf8(" says: "@) + number_field,
{
    lemma_decimal_is_text_of(id + 1);
    lemma_decimal_is_text_of(message_number);
    assert(client_message_bytes(id, message_number) =~= encode_utf8("Client "@) + decimal(id + 1)
        + encode_utf8(" says: "@) + decimal(message_number));
}

/// The results line of a round is the number of clients in decimal, written
/// as `{}` writes it, a comma, the duration text, and a line break.
pub proof fn lemma_results_row_fields(client_count: nat, duration: Seq<char>)
    ensures
        exists|count_field: Seq<u8>|
            #[trigger] is_decimal_text_of(count_field, client_count) && results_row(
                client_count,
                duration,
            ) == count_field + encode_utf8(","@) + encode_utf8(duration) + encode_utf8("\n"@),
{
    lemma_decimal_is_text_of(client_count);
    assert(results_row(client_count, duration) =~= decimal(client_count) + encode_utf8(","@)
        + encode_utf8(duration) + encode_utf8("\n"@));
}

/// The rounds of a load test start at `first`, each has `step` clients more
/// than the one before, none exceeds `last`, and the last one is within `step`
/// of `last`; there is no round when `first` exceeds `last`.
pub proof fn lemma_client_count_rounds(first: usize, last: usize, step: usize)
    requires
        step > 0,
    ensures
        ({
            let rounds = client_count_rounds(first as nat, last as nat, step as nat);
            &&& first > last ==> rounds.len() == 0
            &&& first <= last ==> {
                &&& rounds.len() > 0
                &&& rounds[0] == first
                &&& forall|i: int| 0 <= i < rounds.len() ==> first <= #[trigger] rounds[i] <= last
                &&& forall|i: int|
                    0 <= i < rounds.len() - 1 ==> #[trigger] rounds[i + 1] == rounds[i] + step
                &&& last < rounds[rounds.len() - 1] + step
            }
        }),
{
    let rounds = client_count_rounds(first as nat, last as nat, step as nat);
    if first <= last {
        let d = (last - first) as nat;
        let q = d / (step as nat);
        assert(rounds.len() == q + 1);
        assert forall|i: int| 0 <= i < rounds.len() implies first <= #[trigger] rounds[i] <= last by {
            assert(first + i * step <= last) by (nonlinear_arith)
                requires
                    0 <= i <= q,
                    q == d / (step as nat),
                    d == last - first,
                    step > 0,
            ;
        }
        assert forall|i: int| 0 <= i < rounds.len() - 1 implies #[trigger] rounds[i + 1]
            == rounds[i] + step by {
            assert(first + (i + 1) * step == first + i * step + step) by (nonlinear_arith);
            assert(first + (i + 1) * step <= last) by (nonlinear_arith)
                requires
                    0 <= i + 1 <= q,
                    q == d / (step as nat),
                    d == last - first,
                    step > 0,
            ;
        }
        assert(last < first + q * step + step) by (nonlinear_arith)
            requires
                q == d / (step as nat),
                d == last - first,
                step > 0,
        ;
        assert(first + q * step <= last) by (nonlinear_arith)
            requires
                q == d / (step as nat),
                d == last - first,
                step > 0,
        ;
    }
}

} // verus!
