//! The DNS wire format, which the `dns_protocol` crate writes and reads.

use dns_protocol::{Flags, Message, Question, ResourceRecord, ResourceType};
use vstd::prelude::*;

verus! {

/// The bytes of the standard query with the identifier `id` and one question,
/// for the records of type `ty` and class `class` of `name`, as
/// `dns_protocol` writes it; `None` where it writes none.
pub uninterp spec fn standard_query_wire(id: u16, name: Seq<char>, ty: u16, class: u16) -> Option<
    Seq<u8>,
>;

/// The data of each answer record of the message that `dns_protocol` reads
/// from `data`, in the order of the message, with room for the given numbers
/// of questions, answers, authorities and additional records; `None` where it
/// reads no message.
pub uninterp spec fn message_answers(
    data: Seq<u8>,
    questions: u16,
    answers: u16,
    authorities: u16,
    additional: u16,
) -> Option<Seq<Seq<u8>>>;

/// The bytes of each item of `records`
pub open spec fn records_view(records: Vec<Vec<u8>>) -> Seq<Seq<u8>> {
    records@.map_values(|record: Vec<u8>| record@)
}

/// Builds a message with `dns_protocol::Message::new`, from the flags of
/// `Flags::standard_query` and one `Question::new` whose type is
/// `ResourceType::try_from(ty)`, and writes it with `Message::write` into a
/// buffer of `Message::space_needed` bytes. The contract claims only that the
/// buffer, or the failure to write, depends on the four arguments alone.
#[verifier::external_body]
pub(crate) fn write_standard_query(id: u16, name: &str, ty: u16, class: u16) -> (r: Option<
    Vec<u8>,
>)
    ensures
        match r {
            Some(bytes) => standard_query_wire(id, name@, ty, class) == Some(bytes@),
            None => standard_query_wire(id, name@, ty, class) is None,
        },
{
    let ty = ResourceType::try_from(ty).ok()?;
    let mut questions = [Question::new(name, ty, class)];
    let flags = Flags::standard_query();
    let message = Message::new(id, flags, &mut questions, &mut [], &mut [], &mut []);
    let mut buffer = vec![0u8; message.space_needed()];
    message.write(&mut buffer).ok()?;
    Some(buffer)
}

/// Reads `data` with `dns_protocol::Message::read`, into arrays of the given
/// lengths, and copies the data of each record that `Message::answers` gives.
/// The contract claims only that the records, or the failure to read, depend
/// on the five arguments alone.
#[verifier::external_body]
pub(crate) fn read_answers(
    data: &[u8],
    questions: u16,
    answers: u16,
    authorities: u16,
    additional: u16,
) -> (r: Option<Vec<Vec<u8>>>)
    ensures
        match r {
            Some(records) => message_answers(data@, questions, answers, authorities, additional)
                == Some(records_view(records)),
            None => message_answers(data@, questions, answers, authorities, additional)
                is None,
        },
{
    let mut questions = vec![Question::default(); questions as usize];
    let mut answers = vec![ResourceRecord::default(); answers as usize];
    let mut authorities = vec![ResourceRecord::default(); authorities as usize];
    let mut additional = vec![ResourceRecord::default(); additional as usize];
    let message =
        Message::read(data, &mut questions, &mut answers, &mut authorities, &mut additional)
        .ok()?;
    Some(message.answers().iter().map(|record| record.data().to_vec()).collect())
}

} // verus!
