use vstd::prelude::*;

use crate::json::{json_quote, json_string_literal, json_string_value, law_json_round_trip};

verus! {

/// Kind of a short text note (NIP-01).
pub const TEXT_NOTE_KIND: u16 = 1;

/// Kind under which a proving request is sent.
pub const PROVING_REQUEST_KIND: u16 = 5000;

/// Kind of the job result that a prover announces (NIP-90).
pub const JOB_RESULT_KIND: u16 = 6000;

/// Kind of a handler information event (NIP-89).
pub const APPLICATION_HANDLER_KIND: u16 = 31989;

/// Kind of NIP-78 arbitrary custom app data, an addressable event.
pub const CUSTOM_APP_DATA_KIND: u16 = 30078;

/// A NIP-90 job request kind: in `5000..6000`.
pub open spec fn is_job_request_kind(kind: u16) -> bool {
    5000 <= kind < 6000
}

/// A NIP-90 job result kind: in `6000..7000`.
pub open spec fn is_job_result_kind(kind: int) -> bool {
    6000 <= kind < 7000
}

/// How far the kind of a job result lies above the kind of its request.
pub const JOB_RESULT_OFFSET: u16 = 1000;

/// The decimal digit of `d`, for `d < 10`.
pub open spec fn decimal_digit(d: nat) -> char {
    (('0' as int) + d) as char
}

/// `n` written in decimal, with no sign and no leading zeros.
pub open spec fn decimal(n: nat) -> Seq<char>
    decreases n,
{
    if n < 10 {
        seq![decimal_digit(n)]
    } else {
        decimal(n / 10) + seq![decimal_digit(n % 10)]
    }
}

/// `t` is an input tag (NIP-90): its name is `i`.
pub open spec fn is_input_tag(t: Seq<Seq<char>>) -> bool {
    t.len() > 0 && t[0] == "i"@
}

/// The input tags among `tags`, in order.
pub open spec fn input_tags(tags: Seq<Seq<Seq<char>>>) -> Seq<Seq<Seq<char>>>
    decreases tags.len(),
{
    if tags.len() == 0 {
        Seq::empty()
    } else if is_input_tag(tags.last()) {
        input_tags(tags.drop_last()).push(tags.last())
    } else {
        input_tags(tags.drop_last())
    }
}

/// The tags of a job result for a request with tags `request_tags`, beside
/// those that name the signed request: the request's input tags, in order,
/// then the amount asked.
pub open spec fn job_result_tags(request_tags: Seq<Seq<Seq<char>>>, millisats: u64) -> Seq<
    Seq<Seq<char>>,
> {
    input_tags(request_tags) + seq![
        seq!["amount"@, decimal(millisats as nat)],
    ]
}

/// The tags of the custom app data that this marketplace publishes: one `d`
/// tag that names the application.
pub open spec fn custom_app_data_tags() -> Seq<Seq<Seq<char>>> {
    seq![seq!["d"@, "prover-marketplace"@]]
}

/// The kind, content and tags of an event, before it is signed; each tag is
/// its list of strings, name first.
#[derive(Clone, Debug, PartialEq, Eq)]
pub struct EventDraft {
    pub kind: u16,
    pub content: String,
    pub tags: Vec<Vec<String>>,
}

/// Why a marketplace operation was refused.
#[derive(Clone, Copy, Debug, PartialEq, Eq, Structural)]
pub enum MarketError {
    /// An event kind lies outside the range that the operation needs.
    WrongKind { received: u16 },
}

/// Calls `nostr_sdk::Kind::is_job_request` on the kind numbered `kind`;
/// `Kind::from` keeps the number and the method tests
/// `NIP90_JOB_REQUEST_RANGE`, which is `5_000..6_000`.
#[verifier::external_body]
fn kind_is_job_request(kind: u16) -> (b: bool)
    ensures
        b == is_job_request_kind(kind),
{
    nostr_sdk::Kind::from(kind).is_job_request()
}

/// Calls `nostr_sdk::Kind::is_job_result` on the kind numbered `kind`;
/// `Kind::from` keeps the number and the method tests
/// `NIP90_JOB_RESULT_RANGE`, which is `6_000..7_000`.
#[verifier::external_body]
fn kind_is_job_result(kind: u16) -> (b: bool)
    ensures
        b == is_job_result_kind(kind as int),
{
    nostr_sdk::Kind::from(kind).is_job_result()
}

/// Calls `u64::to_string`: `Display` for an unsigned integer writes it in
/// decimal, with no sign, padding or leading zeros.
#[verifier::external_body]
fn decimal_text(n: u64) -> (s: String)
    ensures
        s@ == decimal(n as nat),
{
    n.to_string()
}

/// NIP-78 arbitrary custom app data: the given text, written as a JSON
/// string, in an addressable event of the custom app data kind whose `d` tag
/// names this marketplace.
pub fn custom_app_data_event(custom_app_stringify: &String) -> (d: EventDraft)
    ensures
        d.kind == CUSTOM_APP_DATA_KIND,
        d.content@ == json_quote(custom_app_stringify@),
        d.tags.deep_view() == custom_app_data_tags(),
        json_string_value(d.content@) == Some(custom_app_stringify@),
{
    let content = json_string_literal(custom_app_stringify).unwrap();
    let name = String::from_str("d");
    let value = String::from_str("prover-marketplace");
    let mut d_tag: Vec<String> = Vec::new();
    d_tag.push(name);
    d_tag.push(value);
    assert(d_tag.deep_view() =~= seq!["d"@, "prover-marketplace"@]);
    let mut tags: Vec<Vec<String>> = Vec::new();
    tags.push(d_tag);
    proof {
        law_json_round_trip(custom_app_stringify@);
        assert(tags.deep_view()[0] == tags@[0].deep_view());
        assert(tags.deep_view() =~= custom_app_data_tags());
    }
    EventDraft { kind: CUSTOM_APP_DATA_KIND, content, tags }
}

/// A proving request, given as JSON, under the proving request kind.
pub fn proving_request_event(request_json: String) -> (d: EventDraft)
    ensures
        d.kind == PROVING_REQUEST_KIND,
        d.content == request_json,
        d.tags@.len() == 0,
{
    EventDraft { kind: PROVING_REQUEST_KIND, content: request_json, tags: Vec::new() }
}

/// A marketplace handler, given as JSON, under the handler information kind.
pub fn application_handler_event(handler_json: String) -> (d: EventDraft)
    ensures
        d.kind == APPLICATION_HANDLER_KIND,
        d.content == handler_json,
        d.tags@.len() == 0,
{
    EventDraft { kind: APPLICATION_HANDLER_KIND, content: handler_json, tags: Vec::new() }
}

/// A prover's result, given as JSON, under the job result kind.
pub fn result_announcement_event(result_json: String) -> (d: EventDraft)
    ensures
        d.kind == JOB_RESULT_KIND,
        d.content == result_json,
        d.tags@.len() == 0,
{
    EventDraft { kind: JOB_RESULT_KIND, content: result_json, tags: Vec::new() }
}

/// A short text note with the given content.
pub fn text_note_event(content: String) -> (d: EventDraft)
    ensures
        d.kind == TEXT_NOTE_KIND,
        d.content == content,
        d.tags@.len() == 0,
{
    EventDraft { kind: TEXT_NOTE_KIND, content, tags: Vec::new() }
}

/// A NIP-90 job request of the given kind, with empty content; refused
/// unless the kind is a job request kind.
pub fn job_request_event(kind: u16) -> (r: Result<EventDraft, MarketError>)
    ensures
        is_job_request_kind(kind) ==> (r matches Ok(d) && d.kind == kind && d.content@
            == Seq::<char>::empty() && d.tags@.len() == 0),
        !is_job_request_kind(kind) ==> r == Err::<EventDraft, MarketError>(
            MarketError::WrongKind { received: kind },
        ),
{
    if kind_is_job_request(kind) {
        Ok(EventDraft { kind, content: String::new(), tags: Vec::new() })
    } else {
        Err(MarketError::WrongKind { received: kind })
    }
}

/// A NIP-90 job result for `request`, carrying `payload` and asking
/// `millisats`: its kind lies `JOB_RESULT_OFFSET` above the request's, its
/// tags are the request's input tags followed by the amount, and it is
/// refused unless its kind is a job result kind, that is, unless the
/// request's kind is a job request kind. The tags that name the request
/// event itself (`e`, `p`, `request`) need the signed request and are added
/// where it is signed.
pub fn job_result_event(request: &EventDraft, payload: String, millisats: u64) -> (r: Result<
    EventDraft,
    MarketError,
>)
    requires
        request.kind + JOB_RESULT_OFFSET <= u16::MAX,
    ensures
        is_job_result_kind(request.kind + JOB_RESULT_OFFSET) ==> (r matches Ok(d) && d.kind
            == request.kind + JOB_RESULT_OFFSET && d.content == payload && d.tags.deep_view()
            == job_result_tags(request.tags.deep_view(), millisats)),
        !is_job_result_kind(request.kind + JOB_RESULT_OFFSET) ==> r == Err::<EventDraft, MarketError>(
            MarketError::WrongKind { received: (request.kind + JOB_RESULT_OFFSET) as u16 },
        ),
{
    let kind = request.kind + JOB_RESULT_OFFSET;
    if !kind_is_job_result(kind) {
        return Err(MarketError::WrongKind { received: kind });
    }
    let ghost request_tags = request.tags.deep_view();
    let input_name = String::from_str("i");
    let mut tags: Vec<Vec<String>> = Vec::new();
    let n = request.tags.len();
    let mut i: usize = 0;
    while i < n
        invariant
            n == request.tags@.len(),
            request_tags == request.tags.deep_view(),
            input_name@ == "i"@,
            i <= n,
            tags.deep_view() == input_tags(request_tags.take(i as int)),
        decreases n - i,
    {
        let tag = &request.tags[i];
        assert(request_tags[i as int] == tag.deep_view());
        assert(request_tags.take(i + 1).drop_last() =~= request_tags.take(i as int));
        let is_input = if tag.len() > 0 {
            tag[0].eq(&input_name)
        } else {
            false
        };
        proof {
            assert(tag.deep_view().len() == tag@.len());
            if tag@.len() > 0 {
                assert(tag.deep_view()[0] == tag@[0]@);
            }
            assert(is_input == is_input_tag(tag.deep_view()));
        }
        if is_input {
            let copy = copy_tag(tag);
            let ghost before = tags.deep_view();
            tags.push(copy);
            assert(tags.deep_view() =~= before.push(tag.deep_view()));
        }
        i = i + 1;
    }
    assert(request_tags.take(n as int) =~= request_tags);
    let mut amount: Vec<String> = Vec::new();
    amount.push(String::from_str("amount"));
    amount.push(decimal_text(millisats));
    assert(amount.deep_view() =~= seq!["amount"@, decimal(millisats as nat)]);
    let ghost before = tags.deep_view();
    tags.push(amount);
    assert(tags.deep_view() =~= before.push(seq!["amount"@, decimal(millisats as nat)]));
    assert(tags.deep_view() =~= job_result_tags(request_tags, millisats));
    Ok(EventDraft { kind, content: payload, tags })
}

/// A copy of a tag, string by string.
fn copy_tag(tag: &Vec<String>) -> (c: Vec<String>)
    ensures
        c.deep_view() == tag.deep_view(),
{
    let mut c: Vec<String> = Vec::new();
    let mut j: usize = 0;
    while j < tag.len()
        invariant
            j <= tag@.len(),
            c@.len() == j,
            forall|k: int| 0 <= k < j ==> c@[k]@ == tag@[k]@,
        decreases tag@.len() - j,
    {
        c.push(tag[j].clone());
        j = j + 1;
    }
    assert(c.deep_view() =~= tag.deep_view());
    c
}

/// A job result can be made for a request kind exactly when that kind is a
/// job request kind: `job_result_event` accepts what `job_request_event`
/// accepts, and nothing else.
pub proof fn law_job_result_answers_job_requests(request_kind: u16)
    requires
        request_kind + JOB_RESULT_OFFSET <= u16::MAX,
    ensures
        is_job_result_kind(request_kind + JOB_RESULT_OFFSET) <==> is_job_request_kind(request_kind),
{
}

/// Every tag of a job result but the last is an input tag, named `i`; the
/// last is the amount, in decimal millisats.
pub proof fn law_job_result_tags_are_inputs_then_amount(
    request_tags: Seq<Seq<Seq<char>>>,
    millisats: u64,
)
    ensures
        job_result_tags(request_tags, millisats).len() >= 1,
        forall|k: int|
            0 <= k < job_result_tags(request_tags, millisats).len() - 1 ==> (#[trigger] job_result_tags(
                request_tags,
                millisats,
            )[k]).len() > 0 && job_result_tags(request_tags, millisats)[k][0] == "i"@,
        job_result_tags(request_tags, millisats).last() == seq!["amount"@, decimal(millisats as nat)],
{
    lemma_input_tags_named_i(request_tags);
    let r = job_result_tags(request_tags, millisats);
    assert forall|k: int| 0 <= k < r.len() - 1 implies (#[trigger] r[k]).len() > 0 && r[k][0]
        == "i"@ by {
        assert(r[k] == input_tags(request_tags)[k]);
    }
}

/// A job result keeps every input tag of its request: each tag whose first
/// string is `i` is among the result's tags.
pub proof fn law_job_result_keeps_every_input_tag(
    request_tags: Seq<Seq<Seq<char>>>,
    millisats: u64,
    j: int,
)
    requires
        0 <= j < request_tags.len(),
        request_tags[j].len() > 0,
        request_tags[j][0] == "i"@,
    ensures
        job_result_tags(request_tags, millisats).contains(request_tags[j]),
{
    lemma_input_tags_keep(request_tags, j);
    let t = input_tags(request_tags);
    let k = choose|k: int| 0 <= k < t.len() && t[k] == request_tags[j];
    assert(job_result_tags(request_tags, millisats)[k] == request_tags[j]);
}

/// The input tags of a request are exactly its tags whose first string is
/// `i`, in their order.
pub proof fn law_input_tags_are_the_i_tags(request_tags: Seq<Seq<Seq<char>>>)
    ensures
        input_tags(request_tags) == request_tags.filter(
            |t: Seq<Seq<char>>| t.len() > 0 && t[0] == "i"@,
        ),
    decreases request_tags.len(),
{
    reveal(Seq::filter);
    if request_tags.len() > 0 {
        law_input_tags_are_the_i_tags(request_tags.drop_last());
    }
}

proof fn lemma_input_tags_named_i(tags: Seq<Seq<Seq<char>>>)
    ensures
        forall|k: int| 0 <= k < input_tags(tags).len() ==> (#[trigger] input_tags(tags)[k]).len() > 0
            && input_tags(tags)[k][0] == "i"@,
        input_tags(tags).len() <= tags.len(),
    decreases tags.len(),
{
    if tags.len() > 0 {
        lemma_input_tags_named_i(tags.drop_last());
    }
}

proof fn lemma_input_tags_keep(tags: Seq<Seq<Seq<char>>>, j: int)
    requires
        0 <= j < tags.len(),
        tags[j].len() > 0,
        tags[j][0] == "i"@,
    ensures
        exists|k: int| 0 <= k < input_tags(tags).len() && input_tags(tags)[k] == tags[j],
    decreases tags.len(),
{
    if j == tags.len() - 1 {
        let t = input_tags(tags);
        assert(t[t.len() - 1] == tags[j]);
    } else {
        lemma_input_tags_keep(tags.drop_last(), j);
        let prev = input_tags(tags.drop_last());
        let k = choose|k: int| 0 <= k < prev.len() && prev[k] == tags.drop_last()[j];
        assert(input_tags(tags)[k] == tags[j]);
    }
}

} // verus!
