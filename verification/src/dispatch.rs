//! The dispatcher's pure half: random message selection and envelope
//! construction. Handing the envelope to the wire and reporting the outcome
//! happen outside the library; the daemon state machine decides what an
//! outcome means.

use vstd::prelude::*;
use crate::config::Config;

verus! {

/// `body` is a copy of some element of the pool.
pub open spec fn selected_from(pool: Seq<String>, body: String) -> bool {
    exists|i: int| 0 <= i < pool.len() && body@ == pool[i]@
}

/// Relies on rand's `SliceRandom::choose` on the thread-local generator: for
/// a non-empty slice the result is a copy of one of its elements, each chosen
/// with equal probability; for an empty slice it is `None`. Which element
/// comes back varies from call to call.
#[verifier::external_body]
fn choose_body(pool: &Vec<String>) -> (r: Option<String>)
    ensures
        pool@.len() == 0 ==> r is None,
        pool@.len() > 0 ==> r is Some && selected_from(pool@, r.unwrap()),
{
    rand::seq::SliceRandom::choose(pool.as_slice(), &mut rand::thread_rng()).cloned()
}

/// Picks one message body at random, with replacement, from a non-empty pool.
/// The result is always a copy of an element of the pool; repeats across
/// calls are allowed and expected.
pub fn select_message(pool: &Vec<String>) -> (body: String)
    requires
        pool@.len() > 0,
    ensures
        selected_from(pool@, body),
{
    choose_body(pool).unwrap()
}

/// The composed outgoing message: sender, recipient, subject and the selected
/// body, ready for transmission.
#[derive(Debug)]
pub struct Envelope {
    pub from: String,
    pub to: String,
    pub subject: String,
    pub body: String,
}

/// Builds the envelope for one dispatch: sender, recipient and subject are
/// taken unchanged from the configuration, the body is the selected message.
pub fn build_envelope(config: &Config, body: String) -> (e: Envelope)
    ensures
        e.from@ == config.from@,
        e.to@ == config.to@,
        e.subject@ == config.subject@,
        e.body@ == body@,
{
    Envelope {
        from: config.from.clone(),
        to: config.to.clone(),
        subject: config.subject.clone(),
        body,
    }
}

/// With a pool of exactly one entry, every selected body is a copy of that
/// entry, so every dispatched email carries it.
pub proof fn lemma_singleton_pool(pool: Seq<String>, body: String)
    requires
        pool.len() == 1,
        selected_from(pool, body),
    ensures
        body@ == pool[0]@,
{
}

} // verus!
