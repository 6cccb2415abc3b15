//! Validation and sanitization of issuance requests.

use vstd::prelude::*;
use vstd::string::*;

use crate::error::{Field, Reason, ValidationError};
use crate::text::{
    byte_len, char_is_alphanumeric, char_is_whitespace, is_alphanumeric, is_whitespace, text_eq,
};
use crate::types::certificate::{CreateCertificateRequest, CreateCertificateRequestView};

verus! {

/// Longest session identifier, in bytes.
pub const MAX_SESSION_ID_LENGTH: usize = 100;

/// Longest user name, in bytes.
pub const MAX_USERNAME_LENGTH: usize = 50;

/// Longest title, in bytes.
pub const MAX_TITLE_LENGTH: usize = 200;

/// Longest description, in bytes.
pub const MAX_DESCRIPTION_LENGTH: usize = 1000;

/// Longest name of a creation tool, in bytes.
pub const MAX_TOOL_LENGTH: usize = 50;

/// Most photos that one request may name.
pub const MAX_PHOTO_COUNT: u32 = 100;

/// Longest creation time: one year, in minutes.
pub const MAX_CREATION_DURATION: u32 = 525600;

/// Most creation tools that one request may name.
pub const MAX_TOOLS: usize = 20;

/// The punctuation that free text may hold.
pub open spec fn is_allowed_punctuation(c: char) -> bool {
    c == '.' || c == ',' || c == '!' || c == '?' || c == '-' || c == '(' || c == ')' || c == '['
        || c == ']' || c == '{' || c == '}' || c == ':' || c == ';' || c == '"' || c == '\''
}

/// The characters that free text may hold: letters and digits, white space
/// and the allowed punctuation.
pub open spec fn is_allowed_char(c: char) -> bool {
    char_is_alphanumeric(c) || char_is_whitespace(c) || is_allowed_punctuation(c)
}

/// The predicate [`is_allowed_char`] as a value.
pub open spec fn allowed() -> spec_fn(char) -> bool {
    |c: char| is_allowed_char(c)
}

/// `input` without the characters that free text may not hold.
pub open spec fn sanitized(input: Seq<char>) -> Seq<char> {
    input.filter(allowed())
}

/// What sanitizing `input` under the cap `max_length` yields: the filtered
/// text, or the rule that the text breaks.
pub open spec fn sanitize_outcome(input: Seq<char>, max_length: usize) -> Result<Seq<char>, Reason> {
    if input.len() == 0 || byte_len(input) > max_length {
        Err(Reason::Length)
    } else if sanitized(input).len() == 0 {
        Err(Reason::NoValidCharacters)
    } else {
        Ok(sanitized(input))
    }
}

/// The file formats that a certificate may name.
pub open spec fn is_supported_format(format: Seq<char>) -> bool {
    format == "JPEG"@ || format == "PNG"@ || format == "GIF"@ || format == "WEBP"@ || format
        == "JPEG/PNG"@
}

/// The rule that the first faulty tool name breaks, if any is faulty.
pub open spec fn first_tool_fault(tools: Seq<Seq<char>>) -> Option<Reason>
    decreases tools.len(),
{
    if tools.len() == 0 {
        None
    } else {
        match first_tool_fault(tools.drop_last()) {
            Some(e) => Some(e),
            None => match sanitize_outcome(tools.last(), MAX_TOOL_LENGTH) {
                Err(e) => Some(e),
                Ok(_) => None,
            },
        }
    }
}

/// Each tool name sanitized.
pub open spec fn sanitized_tools(tools: Seq<Seq<char>>) -> Seq<Seq<char>> {
    Seq::new(tools.len(), |i: int| sanitized(tools[i]))
}

/// The first rule that `request` breaks, if it breaks one. The rules are
/// tried in the order of the fields.
pub open spec fn validation_fault(request: CreateCertificateRequestView) -> Option<ValidationError> {
    if request.session_id.len() == 0 || byte_len(request.session_id) > MAX_SESSION_ID_LENGTH {
        Some(ValidationError { field: Field::SessionId, reason: Reason::Length })
    } else if request.username.len() == 0 || byte_len(request.username) > MAX_USERNAME_LENGTH {
        Some(ValidationError { field: Field::Username, reason: Reason::Length })
    } else if sanitize_outcome(request.art_title, MAX_TITLE_LENGTH) is Err {
        Some(
            ValidationError {
                field: Field::ArtTitle,
                reason: sanitize_outcome(request.art_title, MAX_TITLE_LENGTH)->Err_0,
            },
        )
    } else if sanitize_outcome(request.description, MAX_DESCRIPTION_LENGTH) is Err {
        Some(
            ValidationError {
                field: Field::Description,
                reason: sanitize_outcome(request.description, MAX_DESCRIPTION_LENGTH)->Err_0,
            },
        )
    } else if request.photo_count == 0 || request.photo_count > MAX_PHOTO_COUNT {
        Some(ValidationError { field: Field::PhotoCount, reason: Reason::OutOfRange })
    } else if request.creation_duration == 0 || request.creation_duration > MAX_CREATION_DURATION {
        Some(ValidationError { field: Field::CreationDuration, reason: Reason::OutOfRange })
    } else if !is_supported_format(request.file_format) {
        Some(ValidationError { field: Field::FileFormat, reason: Reason::Unsupported })
    } else if request.creation_tools.len() == 0 || request.creation_tools.len() > MAX_TOOLS {
        Some(ValidationError { field: Field::CreationTools, reason: Reason::Count })
    } else if first_tool_fault(request.creation_tools) is Some {
        Some(
            ValidationError {
                field: Field::CreationTools,
                reason: first_tool_fault(request.creation_tools)->0,
            },
        )
    } else {
        None
    }
}

/// The request with its free text sanitized.
pub open spec fn sanitized_request(request: CreateCertificateRequestView) -> CreateCertificateRequestView {
    CreateCertificateRequestView {
        art_title: sanitized(request.art_title),
        description: sanitized(request.description),
        creation_tools: sanitized_tools(request.creation_tools),
        ..request
    }
}

/// Whether free text may hold `c`.
pub fn allowed_char(c: char) -> (r: bool)
    ensures
        r == is_allowed_char(c),
{
    is_alphanumeric(c) || is_whitespace(c) || c == '.' || c == ',' || c == '!' || c == '?' || c
        == '-' || c == '(' || c == ')' || c == '[' || c == ']' || c == '{' || c == '}' || c == ':'
        || c == ';' || c == '"' || c == '\''
}

/// Strips from `input` every character that free text may not hold. Fails
/// with [`Reason::Length`] where `input` is empty or longer than
/// `max_length` bytes, and with [`Reason::NoValidCharacters`] where nothing
/// is left.
pub fn sanitize_string(input: &str, max_length: usize) -> (r: Result<String, Reason>)
    ensures
        match sanitize_outcome(input@, max_length) {
            Ok(text) => r is Ok && r->Ok_0@ == text,
            Err(e) => r == Err::<String, Reason>(e),
        },
{
    if input.is_empty() || input.len() > max_length {
        return Err(Reason::Length);
    }
    let mut out = String::new();
    assert(input@.subrange(0, 0) =~= Seq::<char>::empty());
    for c in it: input.chars()
        invariant
            it.seq() == input@,
            out@ == input@.subrange(0, it.index() as int).filter(allowed()),
    {
        proof {
            let i = it.index() as int;
            let a = input@.subrange(0, i);
            let b = input@.subrange(0, i + 1);
            assert(b =~= a.push(c));
            assert(b.drop_last() =~= a);
            reveal(Seq::filter);
        }
        if allowed_char(c) {
            out.push(c);
        }
    }
    assert(input@.subrange(0, input@.len() as int) =~= input@);
    if out.as_str().is_empty() {
        return Err(Reason::NoValidCharacters);
    }
    Ok(out)
}

/// Whether a certificate may name the file format.
pub fn supported_format(format: &String) -> (r: bool)
    ensures
        r == is_supported_format(format@),
{
    text_eq(format, "JPEG") || text_eq(format, "PNG") || text_eq(format, "GIF") || text_eq(
        format,
        "WEBP",
    ) || text_eq(format, "JPEG/PNG")
}

/// A copy of a list of sizes.
pub fn clone_sizes(sizes: &Vec<u64>) -> (out: Vec<u64>)
    ensures
        out@ == sizes@,
{
    let mut out: Vec<u64> = Vec::new();
    let mut i: usize = 0;
    while i < sizes.len()
        invariant
            i <= sizes.len(),
            out@ == sizes@.subrange(0, i as int),
        decreases sizes.len() - i,
    {
        out.push(sizes[i]);
        assert(sizes@.subrange(0, i as int + 1) =~= sizes@.subrange(0, i as int).push(
            sizes@[i as int],
        ));
        i = i + 1;
    }
    assert(sizes@.subrange(0, sizes.len() as int) =~= sizes@);
    out
}

/// Sanitizes each tool name, and stops at the first faulty one.
fn sanitize_tools(tools: &Vec<String>) -> (r: Result<Vec<String>, Reason>)
    ensures
        match first_tool_fault(tools.deep_view()) {
            Some(e) => r == Err::<Vec<String>, Reason>(e),
            None => r is Ok && r->Ok_0.deep_view() == sanitized_tools(tools.deep_view()),
        },
{
    let mut out: Vec<String> = Vec::new();
    let mut i: usize = 0;
    let ghost all = tools.deep_view();
    assert(all.subrange(0, 0) =~= Seq::<Seq<char>>::empty());
    while i < tools.len()
        invariant
            i <= tools.len(),
            all == tools.deep_view(),
            out.len() == i,
            first_tool_fault(all.subrange(0, i as int)) is None,
            forall|j: int| 0 <= j < i ==> (#[trigger] out@[j])@ == sanitized(all[j]),
        decreases tools.len() - i,
    {
        proof {
            let next = all.subrange(0, i as int + 1);
            assert(next.drop_last() =~= all.subrange(0, i as int));
            assert(next.last() == tools@[i as int]@);
            assert(all[i as int] == tools@[i as int]@);
        }
        match sanitize_string(tools[i].as_str(), MAX_TOOL_LENGTH) {
            Err(e) => {
                proof {
                    lemma_fault_persists(all, i as int + 1);
                }
                return Err(e);
            },
            Ok(t) => {
                out.push(t);
            },
        }
        i = i + 1;
    }
    assert(all.subrange(0, tools.len() as int) =~= all);
    assert(out.deep_view() =~= sanitized_tools(all));
    Ok(out)
}

/// A fault among the first `n` tool names is the fault of the whole list.
proof fn lemma_fault_persists(tools: Seq<Seq<char>>, n: int)
    requires
        0 <= n <= tools.len(),
        first_tool_fault(tools.subrange(0, n)) is Some,
    ensures
        first_tool_fault(tools) == first_tool_fault(tools.subrange(0, n)),
    decreases tools.len() - n,
{
    if n == tools.len() {
        assert(tools.subrange(0, n) =~= tools);
    } else {
        let next = tools.subrange(0, n + 1);
        assert(next.drop_last() =~= tools.subrange(0, n));
        lemma_fault_persists(tools, n + 1);
    }
}

/// Checks `request` against the validation rules, in the order of its
/// fields, and returns it with its free text sanitized; fails with the first
/// rule that it breaks.
pub fn validate_and_sanitize_input(request: &CreateCertificateRequest) -> (r: Result<
    CreateCertificateRequest,
    ValidationError,
>)
    ensures
        match validation_fault(request@) {
            Some(e) => r == Err::<CreateCertificateRequest, ValidationError>(e),
            None => r is Ok && r->Ok_0@ == sanitized_request(request@),
        },
{
    if request.session_id.as_str().is_empty() || request.session_id.as_str().len()
        > MAX_SESSION_ID_LENGTH {
        return Err(ValidationError { field: Field::SessionId, reason: Reason::Length });
    }
    if request.username.as_str().is_empty() || request.username.as_str().len()
        > MAX_USERNAME_LENGTH {
        return Err(ValidationError { field: Field::Username, reason: Reason::Length });
    }
    let art_title = match sanitize_string(request.art_title.as_str(), MAX_TITLE_LENGTH) {
        Err(reason) => {
            return Err(ValidationError { field: Field::ArtTitle, reason });
        },
        Ok(t) => t,
    };
    let description = match sanitize_string(request.description.as_str(), MAX_DESCRIPTION_LENGTH) {
        Err(reason) => {
            return Err(ValidationError { field: Field::Description, reason });
        },
        Ok(t) => t,
    };
    if request.photo_count == 0 || request.photo_count > MAX_PHOTO_COUNT {
        return Err(ValidationError { field: Field::PhotoCount, reason: Reason::OutOfRange });
    }
    if request.creation_duration == 0 || request.creation_duration > MAX_CREATION_DURATION {
        return Err(ValidationError { field: Field::CreationDuration, reason: Reason::OutOfRange });
    }
    if !supported_format(&request.file_format) {
        return Err(ValidationError { field: Field::FileFormat, reason: Reason::Unsupported });
    }
    if request.creation_tools.len() == 0 || request.creation_tools.len() > MAX_TOOLS {
        return Err(ValidationError { field: Field::CreationTools, reason: Reason::Count });
    }
    let creation_tools = match sanitize_tools(&request.creation_tools) {
        Err(reason) => {
            return Err(ValidationError { field: Field::CreationTools, reason });
        },
        Ok(t) => t,
    };
    Ok(
        CreateCertificateRequest {
            session_id: request.session_id.clone(),
            username: request.username.clone(),
            art_title,
            description,
            photo_count: request.photo_count,
            creation_duration: request.creation_duration,
            file_format: request.file_format.clone(),
            creation_tools,
            file_sizes: clone_sizes(&request.file_sizes),
        },
    )
}

} // verus!
