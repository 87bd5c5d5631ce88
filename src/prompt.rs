use vstd::prelude::*;
use vstd::string::*;
use crate::model::{meta_views, Metadata};

verus! {

/// The text of a single decimal digit.
pub open spec fn digit_text(d: nat) -> Seq<char> {
    if d == 0 { "0"@ } else if d == 1 { "1"@ } else if d == 2 { "2"@ } else if d == 3 { "3"@ }
    else if d == 4 { "4"@ } else if d == 5 { "5"@ } else if d == 6 { "6"@ } else if d == 7 { "7"@ }
    else if d == 8 { "8"@ } else { "9"@ }
}

/// The decimal numeral of `n`, without leading zeros.
pub open spec fn decimal(n: nat) -> Seq<char>
    decreases n,
{
    if n < 10 {
        digit_text(n)
    } else {
        decimal(n / 10) + digit_text(n % 10)
    }
}

fn digit_str(d: usize) -> (r: &'static str)
    requires
        d < 10,
    ensures
        r@ == digit_text(d as nat),
{
    if d == 0 { "0" } else if d == 1 { "1" } else if d == 2 { "2" } else if d == 3 { "3" }
    else if d == 4 { "4" } else if d == 5 { "5" } else if d == 6 { "6" } else if d == 7 { "7" }
    else if d == 8 { "8" } else { "9" }
}

/// Writes `n` in decimal.
pub fn decimal_string(n: usize) -> (r: String)
    ensures
        r@ == decimal(n as nat),
    decreases n,
{
    if n < 10 {
        String::from_str(digit_str(n))
    } else {
        let mut s = decimal_string(n / 10);
        s.append(digit_str(n % 10));
        s
    }
}

/// The user message that asks the chat model to explain `code`.
pub open spec fn explain_text(code: Seq<char>) -> Seq<char> {
    "Explain the following Golang code in detail:\n\n"@ + code
}

/// The system message used when the caller gives none.
pub open spec fn default_system_text() -> Seq<char> {
    "You are a Golang expert. Explain the code clearly and concisely."@
}

/// The system message for generating a hypothetical document.
pub open spec fn hypothetical_system_text() -> Seq<char> {
    "You are a Golang code generator. Given a query, generate a Golang code snippet or document that would answer it. The output must not exceed the specified chunk size."@
}

/// The request for a hypothetical document that answers `query` within
/// `budget` characters.
pub open spec fn hypothetical_text(budget: nat, query: Seq<char>) -> Seq<char> {
    "Generate a hypothetical Golang code snippet or document that would answer the following query as if it existed in a codebase. The generated document must fit within "@
        + decimal(budget) + " characters.\n\nQuery: "@ + query + "\n\nHypothetical Document:"@
}

/// How one retrieved chunk is shown to the chat model.
pub open spec fn snippet_text(m: (Seq<char>, Seq<char>)) -> Seq<char> {
    "File: "@ + m.0 + "\nCode:\n"@ + m.1 + "\n"@
}

/// The snippets of all retrieved chunks, in order, separated by rules.
pub open spec fn joined_snippets(ms: Seq<(Seq<char>, Seq<char>)>) -> Seq<char>
    decreases ms.len(),
{
    if ms.len() == 0 {
        Seq::empty()
    } else if ms.len() == 1 {
        snippet_text(ms[0])
    } else {
        joined_snippets(ms.drop_last()) + "\n---\n"@ + snippet_text(ms.last())
    }
}

/// The request to answer `query` from the retrieved chunks.
pub open spec fn synthesis_text(query: Seq<char>, ms: Seq<(Seq<char>, Seq<char>)>) -> Seq<char> {
    "Given the following user query:\n"@ + query + "\n\nand these relevant code snippets:\n"@
        + joined_snippets(ms) + "\n\nProvide a detailed answer, referencing the code where appropriate."@
}

/// A chat request: a system message and a user message.
#[derive(Debug)]
pub struct ChatRequest {
    pub system: String,
    pub user: String,
}

/// Builds the request that asks for an explanation of `code`, under the
/// given system message or the default one.
pub fn explain_request(code: &str, system: Option<&str>) -> (r: ChatRequest)
    ensures
        r.user@ == explain_text(code@),
        system matches Some(s) ==> r.system@ == s@,
        system is None ==> r.system@ == default_system_text(),
{
    let mut user = String::from_str("Explain the following Golang code in detail:\n\n");
    user.append(code);
    let system = match system {
        Some(s) => String::from_str(s),
        None => String::from_str("You are a Golang expert. Explain the code clearly and concisely."),
    };
    ChatRequest { system, user }
}

/// The request for a hypothetical document that answers `query` within
/// `budget` characters.
pub fn hypothetical_prompt(budget: usize, query: &str) -> (r: String)
    ensures
        r@ == hypothetical_text(budget as nat, query@),
{
    let mut s = String::from_str(
        "Generate a hypothetical Golang code snippet or document that would answer the following query as if it existed in a codebase. The generated document must fit within ",
    );
    let digits = decimal_string(budget);
    s.append(digits.as_str());
    s.append(" characters.\n\nQuery: ");
    s.append(query);
    s.append("\n\nHypothetical Document:");
    s
}

/// The system message for generating a hypothetical document.
pub fn hypothetical_system() -> (r: String)
    ensures
        r@ == hypothetical_system_text(),
{
    String::from_str(
        "You are a Golang code generator. Given a query, generate a Golang code snippet or document that would answer it. The output must not exceed the specified chunk size.",
    )
}

fn append_snippet(s: &mut String, m: &Metadata)
    ensures
        final(s)@ == old(s)@ + snippet_text(m@),
{
    s.append("File: ");
    s.append(m.file.as_str());
    s.append("\nCode:\n");
    s.append(m.code.as_str());
    s.append("\n");
}

/// The request to answer `query` from the retrieved chunks `ms`, in order.
pub fn synthesis_prompt(query: &str, ms: &Vec<Metadata>) -> (r: String)
    ensures
        r@ == synthesis_text(query@, meta_views(ms@)),
{
    let mut s = String::from_str("Given the following user query:\n");
    s.append(query);
    s.append("\n\nand these relevant code snippets:\n");
    let ghost head = s@;
    let mut i: usize = 0;
    while i < ms.len()
        invariant
            i <= ms@.len(),
            s@ == head + joined_snippets(meta_views(ms@.subrange(0, i as int))),
        decreases ms@.len() - i,
    {
        assert(meta_views(ms@.subrange(0, i + 1)).drop_last() =~= meta_views(ms@.subrange(0, i as int)));
        if i > 0 {
            s.append("\n---\n");
        }
        append_snippet(&mut s, &ms[i]);
        i = i + 1;
        assert(s@ =~= head + joined_snippets(meta_views(ms@.subrange(0, i as int))));
    }
    assert(ms@.subrange(0, ms@.len() as int) =~= ms@);
    s.append("\n\nProvide a detailed answer, referencing the code where appropriate.");
    s
}

} // verus!
