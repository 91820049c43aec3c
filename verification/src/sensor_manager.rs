//! The parts of the desktop sensor's subscriber management that decide: the random
//! messages it sends, and the subscriber status it reports.
use vstd::prelude::*;

verus! {

/// What the subscriber status says of the previous message when there is none.
pub const NO_PREVIOUS_MESSAGE: &'static str = "---";

/// Why the subscriber status could not be reported.
#[derive(PartialEq, Eq, Structural, Clone, Copy, Debug)]
pub enum SensorManagerError {
    /// The subscriber has not subscribed to a channel.
    NoExistingSubscription,
}

/// `rand::random::<u8>`: a byte from the thread-local generator, left to chance.
#[verifier::external_body]
fn random_byte() -> (r: u8) {
    rand::random::<u8>()
}

/// Sends messages of the local Streams client; the sending itself is done by the caller.
pub struct SensorManager {}

impl SensorManager {
    /// A random message of `msg_size` bytes.
    pub fn random_message(msg_size: usize) -> (r: Vec<u8>)
        ensures
            r@.len() == msg_size,
    {
        let mut random_bytes: Vec<u8> = Vec::new();
        let mut n: usize = 0;
        while n < msg_size
            invariant
                n <= msg_size,
                random_bytes@.len() == n,
            decreases msg_size - n,
        {
            random_bytes.push(random_byte());
            n = n + 1;
        }
        random_bytes
    }

    /// The link of the previous message as the subscriber status shows it.
    pub fn previous_message_link_text(prev_msg_link: Option<String>) -> (r: String)
        ensures
            r@ == (match prev_msg_link {
                Some(l) => l@,
                None => NO_PREVIOUS_MESSAGE@,
            }),
    {
        match prev_msg_link {
            Some(l) => l,
            None => NO_PREVIOUS_MESSAGE.to_string(),
        }
    }

    /// The subscriber status: the previous message link together with the subscription,
    /// which must exist.
    pub fn subscriber_status<S>(previous_message_link: String, subscription: Option<S>) -> (r: Result<(String, S), SensorManagerError>)
        ensures
            match subscription {
                Some(s) => r matches Ok(p) && p.0@ == previous_message_link@ && p.1 == s,
                None => r == Err::<(String, S), SensorManagerError>(SensorManagerError::NoExistingSubscription),
            },
    {
        match subscription {
            Some(s) => Ok((previous_message_link, s)),
            None => Err(SensorManagerError::NoExistingSubscription),
        }
    }

    /// The positions of the message files that do not exist, in increasing order, given whether
    /// each one does; the sensor refuses to start sending while any is missing.
    pub fn missing_message_files(files: &Vec<String>, exists: &Vec<bool>) -> (r: Vec<usize>)
        requires
            files@.len() == exists@.len(),
        ensures
            forall|k: int| 0 <= k < r@.len() ==> r@[k] < files@.len() && !exists@[r@[k] as int],
            forall|i: int| 0 <= i < files@.len() && !exists@[i] ==> r@.contains(i as usize),
            forall|a: int, b: int| 0 <= a < b < r@.len() ==> r@[a] < r@[b],
    {
        let mut missing: Vec<usize> = Vec::new();
        let mut i: usize = 0;
        while i < files.len()
            invariant
                i <= files@.len(),
                files@.len() == exists@.len(),
                forall|k: int| 0 <= k < missing@.len() ==> missing@[k] < i && !exists@[missing@[k] as int],
                forall|j: int| 0 <= j < i && !exists@[j] ==> missing@.contains(j as usize),
                forall|a: int, b: int| 0 <= a < b < missing@.len() ==> missing@[a] < missing@[b],
            decreases files@.len() - i,
        {
            let ghost before = missing@;
            if !exists[i] {
                missing.push(i);
            }
            assert forall|j: int| 0 <= j < i + 1 && !exists@[j] implies missing@.contains(j as usize) by {
                if j == i {
                    assert(missing@[missing@.len() - 1] == i);
                } else {
                    let k = choose|k: int| 0 <= k < before.len() && before[k] == j as usize;
                    assert(missing@[k] == before[k]);
                }
            }
            i = i + 1;
        }
        missing
    }
}

/// The subscriber status that the remote controlled ESP32 sensor confirms.
#[derive(PartialEq, Eq, Debug)]
pub enum EspSubscriberStatus<S> {
    /// The subscription exists: the link of the previous message (empty without one) and the
    /// subscription.
    Current(String, S),
    /// No subscription exists: the default status is confirmed.
    Default,
}

/// The subscriber status that the ESP32 sensor confirms: the current one when it has
/// subscribed, the default one otherwise; it never fails.
pub fn esp_subscriber_status<S>(prev_msg_link: Option<String>, subscription: Option<S>) -> (r: EspSubscriberStatus<S>)
    ensures
        match subscription {
            Some(s) => r matches EspSubscriberStatus::Current(l, t) && t == s && l@ == (match prev_msg_link {
                Some(p) => p@,
                None => Seq::<char>::empty(),
            }),
            None => r matches EspSubscriberStatus::Default,
        },
{
    match subscription {
        Some(s) => {
            let previous_message_link = match prev_msg_link {
                Some(p) => p,
                None => String::new(),
            };
            EspSubscriberStatus::Current(previous_message_link, s)
        },
        None => EspSubscriberStatus::Default,
    }
}

} // verus!
