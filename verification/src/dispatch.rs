//! Turning one message into one characteristic write.

use vstd::prelude::*;
use vstd::string::*;
use vstd::utf8::encode_utf8;

verus! {

/// One confirmed write, ready to be handed to the adapter.
pub struct WriteCommand {
    /// Position of the characteristic in the list it was resolved from.
    pub characteristic: usize,
    /// The bytes to write: the message, unchanged.
    pub payload: Vec<u8>,
    /// Whether the peripheral must acknowledge the write. Always `true`.
    pub confirmed: bool,
}

/// A write, as a value.
pub ghost struct Write {
    pub characteristic: usize,
    pub payload: Seq<u8>,
    pub confirmed: bool,
}

impl View for WriteCommand {
    type V = Write;

    open spec fn view(&self) -> Write {
        Write {
            characteristic: self.characteristic,
            payload: self.payload@,
            confirmed: self.confirmed,
        }
    }
}

/// How an attempt to deliver a message ended.
pub enum WriteOutcome {
    /// The peripheral acknowledged the write.
    Written,
    /// The connection does not expose the characteristic; nothing was sent.
    CharacteristicNotFound,
    /// The adapter reported a failure, described by the text.
    TransportError(String),
}

/// Whether `i` is the first position of `characteristics` that holds `id`.
pub open spec fn is_first_position(characteristics: Seq<u128>, id: u128, i: int) -> bool {
    &&& 0 <= i < characteristics.len()
    &&& characteristics[i] == id
    &&& forall|j: int| 0 <= j < i ==> characteristics[j] != id
}

/// The position a write to `id` goes to: the first position of
/// `characteristics` that holds `id`, or `None` where none does.
pub open spec fn resolved(characteristics: Seq<u128>, id: u128) -> Option<usize> {
    if exists|i: usize| is_first_position(characteristics, id, i as int) {
        Some(choose|i: usize| is_first_position(characteristics, id, i as int))
    } else {
        None
    }
}

/// Looks `id` up in the connection's current characteristic list.
pub fn resolve_characteristic(characteristics: &Vec<u128>, id: u128) -> (found: Option<usize>)
    ensures
        found == resolved(characteristics@, id),
        match found {
            Some(i) => is_first_position(characteristics@, id, i as int),
            None => !characteristics@.contains(id),
        },
{
    let mut i: usize = 0;
    while i < characteristics.len()
        invariant
            i <= characteristics@.len(),
            forall|j: int| 0 <= j < i ==> characteristics@[j] != id,
        decreases characteristics@.len() - i,
    {
        if characteristics[i] == id {
            proof {
                assert(is_first_position(characteristics@, id, i as int));
                let c = choose|c: usize| is_first_position(characteristics@, id, c as int);
                if c < i {
                    assert(characteristics@[c as int] != id);
                }
            }
            return Some(i);
        }
        i += 1;
    }
    None
}

/// The write that delivers `message` to the characteristic `id` of a
/// connection that lists `characteristics`: one confirmed write of the whole
/// message, as UTF-8, to the first position that holds `id`. Where no
/// position holds it there is no write.
pub open spec fn planned(characteristics: Seq<u128>, id: u128, message: Seq<char>) -> Option<
    Write,
> {
    match resolved(characteristics, id) {
        Some(characteristic) => Some(
            Write { characteristic, payload: encode_utf8(message), confirmed: true },
        ),
        None => None,
    }
}

/// The writes that deliver `messages`, one request after the other.
pub open spec fn planned_all(
    characteristics: Seq<u128>,
    id: u128,
    messages: Seq<Seq<char>>,
) -> Seq<Option<Write>> {
    Seq::new(messages.len(), |i: int| planned(characteristics, id, messages[i]))
}

/// Plans the delivery of `message` to the characteristic `char_uuid`.
///
/// The characteristic is looked up in `characteristics`, the list the
/// connection reports at this moment. Where it is there, the result is one
/// confirmed write of the message's bytes to its first position; where it is
/// not, there is nothing to write.
pub fn send_message(characteristics: &Vec<u128>, char_uuid: u128, message: &str) -> (command:
    Option<WriteCommand>)
    ensures
        command is Some <==> characteristics@.contains(char_uuid),
        match command {
            Some(c) => Some(c@) == planned(characteristics@, char_uuid, message@),
            None => planned(characteristics@, char_uuid, message@) is None,
        },
{
    match resolve_characteristic(characteristics, char_uuid) {
        Some(i) => Some(
            WriteCommand { characteristic: i, payload: message.as_bytes_vec(), confirmed: true },
        ),
        None => None,
    }
}

/// A position is resolved exactly where the identifier is listed, and it is
/// the first position that holds it.
pub proof fn lemma_resolved(characteristics: Seq<u128>, id: u128)
    requires
        characteristics.len() <= usize::MAX,
    ensures
        resolved(characteristics, id) is Some <==> characteristics.contains(id),
        resolved(characteristics, id) is Some ==> is_first_position(
            characteristics,
            id,
            resolved(characteristics, id)->0 as int,
        ),
{
    if characteristics.contains(id) {
        lemma_first_position_exists(characteristics, id, characteristics.len() as int);
    }
}

/// Among the first `n` positions, one that holds `id` has a first.
proof fn lemma_first_position_exists(characteristics: Seq<u128>, id: u128, n: int)
    requires
        0 <= n <= characteristics.len(),
        exists|k: int| 0 <= k < n && characteristics[k] == id,
        characteristics.len() <= usize::MAX,
    ensures
        exists|i: usize| is_first_position(characteristics, id, i as int),
    decreases n,
{
    let last = n - 1;
    if exists|k: int| 0 <= k < last && characteristics[k] == id {
        lemma_first_position_exists(characteristics, id, last);
    } else {
        assert(characteristics[last] == id);
        assert(is_first_position(characteristics, id, last as usize as int));
    }
}

/// Every request is delivered by a write of its own: `count` requests with
/// the same message give `count` writes, each of the whole message. Nothing
/// is merged, dropped or split.
pub proof fn lemma_one_write_per_request(
    characteristics: Seq<u128>,
    id: u128,
    message: Seq<char>,
    count: nat,
)
    requires
        characteristics.len() <= usize::MAX,
        characteristics.contains(id),
    ensures
        ({
            let writes = planned_all(characteristics, id, Seq::new(count, |i: int| message));
            &&& writes.len() == count
            &&& forall|i: int|
                0 <= i < count ==> #[trigger] writes[i] == Some(
                    Write {
                        characteristic: resolved(characteristics, id)->0,
                        payload: encode_utf8(message),
                        confirmed: true,
                    },
                )
        }),
{
    lemma_resolved(characteristics, id);
}

impl WriteOutcome {
    /// What the caller of a send gets to see: only a transport failure is an
    /// error. A missing characteristic counts as success.
    pub fn into_result(self) -> (result: Result<(), String>)
        ensures
            match self {
                WriteOutcome::Written => result == Ok::<(), String>(()),
                WriteOutcome::CharacteristicNotFound => result == Ok::<(), String>(()),
                WriteOutcome::TransportError(text) => result == Err::<(), String>(text),
            },
    {
        match self {
            WriteOutcome::Written => Ok(()),
            WriteOutcome::CharacteristicNotFound => Ok(()),
            WriteOutcome::TransportError(text) => Err(text),
        }
    }
}

} // verus!
