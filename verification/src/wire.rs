//! Answers in the protocol's own types: the result envelope and the error
//! of a refused call.

use crate::envelope::{DispatchError, Envelope, ToolResult};
use crate::payload::Payload;
use crate::service::{outcome, GreetService};
use rmcp::model::{CallToolResult, ContentBlock, ErrorData};
use vstd::prelude::*;

verus! {

/// rmcp's content item, carried through as an opaque value.
#[verifier::external_type_specification]
#[verifier::external_body]
pub struct ExContentBlock(rmcp::model::ContentBlock);

/// rmcp's result of a tool call, carried through as an opaque value.
#[verifier::external_type_specification]
#[verifier::external_body]
pub struct ExCallToolResult(rmcp::model::CallToolResult);

/// rmcp's protocol error, carried through as an opaque value.
#[verifier::external_type_specification]
#[verifier::external_body]
pub struct ExErrorData(rmcp::model::ErrorData);

/// The text that a content item of the protocol holds.
pub uninterp spec fn item_text(item: ContentBlock) -> Seq<char>;

/// The texts of the content items that a protocol result holds, in order.
pub uninterp spec fn held_texts(r: CallToolResult) -> Seq<Seq<char>>;

/// Whether a protocol result is flagged as an error.
pub uninterp spec fn flagged_as_error(r: CallToolResult) -> bool;

/// The code of a protocol error.
pub uninterp spec fn error_code(e: ErrorData) -> int;

/// The message of a protocol error.
pub uninterp spec fn error_text(e: ErrorData) -> Seq<char>;

/// The protocol's code for a request whose parameters are invalid.
pub open spec fn invalid_params_code() -> int {
    -32602
}

/// The texts of a list of content items, in order.
pub open spec fn item_texts(items: Seq<ContentBlock>) -> Seq<Seq<char>> {
    Seq::new(items.len(), |i: int| item_text(items[i]))
}

/// `ContentBlock::text` of rmcp: a text item that holds the given text.
/// Not proved here: that the item holds this text.
#[verifier::external_body]
fn text_item(text: String) -> (item: ContentBlock)
    ensures
        item_text(item) == text@,
{
    ContentBlock::text(text)
}

/// `CallToolResult::success` of rmcp: a result that holds the given items in
/// their order and whose error flag is off. Not proved here: both claims.
#[verifier::external_body]
fn success_result(items: Vec<ContentBlock>) -> (r: CallToolResult)
    ensures
        held_texts(r) == item_texts(items@),
        !flagged_as_error(r),
{
    CallToolResult::success(items)
}

/// `CallToolResult::error` of rmcp: a result that holds the given items in
/// their order and whose error flag is on. Not proved here: both claims.
#[verifier::external_body]
fn error_result(items: Vec<ContentBlock>) -> (r: CallToolResult)
    ensures
        held_texts(r) == item_texts(items@),
        flagged_as_error(r),
{
    CallToolResult::error(items)
}

/// One text item per text, in order.
fn text_items(texts: &Vec<String>) -> (items: Vec<ContentBlock>)
    ensures
        item_texts(items@) == crate::envelope::texts(texts@),
{
    let mut items: Vec<ContentBlock> = Vec::new();
    let mut i: usize = 0;
    while i < texts.len()
        invariant
            i <= texts@.len(),
            items@.len() == i,
            forall|j: int| 0 <= j < i ==> item_text(#[trigger] items@[j]) == texts@[j]@,
        decreases texts.len() - i,
    {
        items.push(text_item(texts[i].clone()));
        i += 1;
    }
    assert(item_texts(items@) =~= crate::envelope::texts(texts@));
    items
}

/// The envelope as a result of the protocol: the same texts in the same
/// order, flagged as an error exactly when the envelope is a failure.
pub fn to_call_result(result: &ToolResult) -> (r: CallToolResult)
    ensures
        match result@ {
            Envelope::Success(t) => !flagged_as_error(r) && held_texts(r) == t,
            Envelope::Failure(t) => flagged_as_error(r) && held_texts(r) == t,
        },
{
    match result {
        ToolResult::Success(texts) => success_result(text_items(texts)),
        ToolResult::Failure(texts) => error_result(text_items(texts)),
    }
}

/// `ErrorData::invalid_params` of rmcp, called without data: an error with
/// the code for invalid parameters and the given message. Not proved here:
/// both claims.
#[verifier::external_body]
fn invalid_params(message: String) -> (e: ErrorData)
    ensures
        error_code(e) == invalid_params_code(),
        error_text(e) == message@,
{
    ErrorData::invalid_params(message, None)
}

/// A refusal as an error of the protocol: the code for invalid parameters,
/// with the refusal's own message.
pub fn to_protocol_error(error: DispatchError) -> (e: ErrorData)
    ensures
        error_code(e) == invalid_params_code(),
        error_text(e) == error.spec_message(),
{
    invalid_params(error.message())
}

/// Dispatches a call and answers in the protocol's types. A call that a
/// handler answered, with a success or with a failure, comes back as a
/// result; a call that was refused before any handler ran comes back as a
/// protocol error, so that the two can be told apart.
pub fn call_tool(service: &GreetService, name: &str, payload: &Payload) -> (r: Result<
    CallToolResult,
    ErrorData,
>)
    ensures
        match outcome(service@, name@, payload@) {
            Ok(Envelope::Success(t)) => r matches Ok(c) && !flagged_as_error(c) && held_texts(c)
                == t,
            Ok(Envelope::Failure(t)) => r matches Ok(c) && flagged_as_error(c) && held_texts(c)
                == t,
            Err(refusal) => r matches Err(e) && error_code(e) == invalid_params_code()
                && error_text(e) == refusal.spec_message(),
        },
{
    match service.dispatch(name, payload) {
        Ok(result) => Ok(to_call_result(&result)),
        Err(refusal) => Err(to_protocol_error(refusal)),
    }
}

} // verus!
