//! VICI messages, as the `rustici` crate builds and reads them: what a reply
//! says, and what a security association event shows.

use crate::text::from_utf8_lossy;
use crate::text::same_bytes;
use crate::text::same_text;
use crate::text::utf8_lossy;
use rustici::Message;
use vstd::prelude::*;
use vstd::string::*;
use vstd::utf8::*;

verus! {

/// `rustici::Message`, a flat sequence of elements.
#[verifier::external_type_specification]
#[verifier::external_body]
pub struct ExMessage(Message);

/// An element of a message, mathematically.
pub enum ViciElement {
    SectionStart(Seq<char>),
    SectionEnd,
    KeyValue(Seq<char>, Seq<u8>),
    ListStart(Seq<char>),
    ListItem(Seq<u8>),
    ListEnd,
}

/// The elements of a message.
pub uninterp spec fn message_elements(message: Message) -> Seq<ViciElement>;

/// A key with a text value.
pub open spec fn kv(name: Seq<char>, value: Seq<char>) -> ViciElement {
    ViciElement::KeyValue(name, encode_utf8(value))
}

/// A list item that is a text.
pub open spec fn item(value: Seq<char>) -> ViciElement {
    ViciElement::ListItem(encode_utf8(value))
}

/// `Message::new`: a message without elements.
#[verifier::external_body]
pub(crate) fn message_new() -> (message: Message)
    ensures
        message_elements(message) == Seq::<ViciElement>::empty(),
{
    Message::new()
}

/// `Message::kv_str`: appends a key with a text value.
#[verifier::external_body]
pub(crate) fn message_kv_str(message: Message, name: &str, value: &str) -> (longer: Message)
    ensures
        message_elements(longer) == message_elements(message).push(kv(name@, value@)),
{
    message.kv_str(name, value)
}

/// `Message::kv_bytes`: appends a key with a value of bytes.
#[verifier::external_body]
pub(crate) fn message_kv_bytes(message: Message, name: &str, value: &[u8]) -> (longer: Message)
    ensures
        message_elements(longer) == message_elements(message).push(
            ViciElement::KeyValue(name@, value@),
        ),
{
    message.kv_bytes(name, value)
}

/// `Message::section_start`: appends the start of a section.
#[verifier::external_body]
pub(crate) fn message_section_start(message: Message, name: &str) -> (longer: Message)
    ensures
        message_elements(longer) == message_elements(message).push(
            ViciElement::SectionStart(name@),
        ),
{
    message.section_start(name)
}

/// `Message::section_end`: appends the end of a section.
#[verifier::external_body]
pub(crate) fn message_section_end(message: Message) -> (longer: Message)
    ensures
        message_elements(longer) == message_elements(message).push(ViciElement::SectionEnd),
{
    message.section_end()
}

/// `Message::list_start`: appends the start of a list.
#[verifier::external_body]
pub(crate) fn message_list_start(message: Message, name: &str) -> (longer: Message)
    ensures
        message_elements(longer) == message_elements(message).push(ViciElement::ListStart(name@)),
{
    message.list_start(name)
}

/// `Message::list_item_str`: appends a list item that is a text.
#[verifier::external_body]
pub(crate) fn message_list_item_str(message: Message, value: &str) -> (longer: Message)
    ensures
        message_elements(longer) == message_elements(message).push(item(value@)),
{
    message.list_item_str(value)
}

/// `Message::list_end`: appends the end of a list.
#[verifier::external_body]
pub(crate) fn message_list_end(message: Message) -> (longer: Message)
    ensures
        message_elements(longer) == message_elements(message).push(ViciElement::ListEnd),
{
    message.list_end()
}

/// An element of a message.
#[derive(Debug)]
pub enum Element {
    SectionStart(String),
    SectionEnd,
    KeyValue(String, Vec<u8>),
    ListStart(String),
    ListItem(Vec<u8>),
    ListEnd,
}

impl View for Element {
    type V = ViciElement;

    open spec fn view(&self) -> ViciElement {
        match self {
            Element::SectionStart(name) => ViciElement::SectionStart(name@),
            Element::SectionEnd => ViciElement::SectionEnd,
            Element::KeyValue(key, value) => ViciElement::KeyValue(key@, value@),
            Element::ListStart(name) => ViciElement::ListStart(name@),
            Element::ListItem(value) => ViciElement::ListItem(value@),
            Element::ListEnd => ViciElement::ListEnd,
        }
    }
}

/// The mathematical elements of a vector of elements.
pub open spec fn element_views(elements: Seq<Element>) -> Seq<ViciElement> {
    elements.map_values(|element: Element| element@)
}

/// `Message::elements`: the elements of the message in order, here copied one by
/// one.
#[verifier::external_body]
fn message_to_elements(message: &Message) -> (elements: Vec<Element>)
    ensures
        element_views(elements@) == message_elements(*message),
{
    message.elements().iter().map(|element| match element {
        rustici::wire::Element::SectionStart(name) => Element::SectionStart(name.clone()),
        rustici::wire::Element::SectionEnd => Element::SectionEnd,
        rustici::wire::Element::KeyValue(k, v) => Element::KeyValue(k.clone(), v.clone()),
        rustici::wire::Element::ListStart(name) => Element::ListStart(name.clone()),
        rustici::wire::Element::ListItem(value) => Element::ListItem(value.clone()),
        rustici::wire::Element::ListEnd => Element::ListEnd,
    }).collect()
}

/// The value of a key, the last one if it occurs more than once.
pub open spec fn last_value(elements: Seq<ViciElement>, key: Seq<char>) -> Option<Seq<u8>>
    decreases elements.len(),
{
    if elements.len() == 0 {
        None
    } else {
        match elements.last() {
            ViciElement::KeyValue(k, value) if k == key => Some(value),
            _ => last_value(elements.drop_last(), key),
        }
    }
}

/// Whether a reply says that its command succeeded: by `success=yes`, and by
/// nothing else.
pub open spec fn says_success(elements: Seq<ViciElement>) -> bool {
    last_value(elements, "success"@) == Some(encode_utf8("yes"@))
}

/// Why a command counts as failed, given a reply that does not say that it
/// succeeded: what the reply reports along with `success=no`, or that the reply
/// does not say either.
pub open spec fn failure_reason(elements: Seq<ViciElement>) -> Seq<char> {
    if last_value(elements, "success"@) == Some(encode_utf8("no"@)) {
        match last_value(elements, "errmsg"@) {
            Some(value) => utf8_lossy(value),
            None => "unknown error"@,
        }
    } else {
        "response does not say success=yes"@
    }
}

/// The text of the error for a reply, `None` if the command succeeded.
pub open spec fn response_error(command: Seq<char>, elements: Seq<ViciElement>) -> Option<
    Seq<char>,
> {
    if says_success(elements) {
        None
    } else {
        Some("VICI "@ + command + " failed: "@ + failure_reason(elements))
    }
}

/// The position of the last value of a key, if the key occurs.
fn find_last(elements: &Vec<Element>, key: &str) -> (at: Option<usize>)
    ensures
        at is Some <==> last_value(element_views(elements@), key@) is Some,
        at matches Some(i) ==> i < elements@.len() && elements@[i as int] is KeyValue && last_value(
            element_views(elements@),
            key@,
        ) == Some(elements@[i as int]->KeyValue_1@),
{
    let ghost views = element_views(elements@);
    let mut i: usize = elements.len();
    assert(views.subrange(0, views.len() as int) =~= views);
    while i > 0
        invariant
            i <= elements@.len(),
            views == element_views(elements@),
            last_value(views, key@) == last_value(views.subrange(0, i as int), key@),
        decreases i,
    {
        i = i - 1;
        proof {
            let front = views.subrange(0, i + 1);
            assert(front.last() == elements@[i as int]@);
            assert(front.drop_last() =~= views.subrange(0, i as int));
        }
        if let Element::KeyValue(k, _) = &elements[i] {
            if same_text(k.as_str(), key) {
                return Some(i);
            }
        }
    }
    assert(views.subrange(0, 0).len() == 0);
    None
}

/// The bytes of the value of a key.
fn value_at(elements: &Vec<Element>, at: usize) -> (value: &[u8])
    requires
        at < elements@.len(),
        elements@[at as int] is KeyValue,
    ensures
        value@ == elements@[at as int]->KeyValue_1@,
{
    match &elements[at] {
        Element::KeyValue(_, value) => value.as_slice(),
        _ => {
            proof {
                assert(false);
            }
            &[]
        },
    }
}

/// Check the elements of a reply for `success=yes`, and return an error
/// otherwise.
pub fn check_elements(command: &str, elements: &Vec<Element>) -> (result: Result<(), String>)
    ensures
        result is Ok <==> says_success(element_views(elements@)),
        result matches Err(text) ==> response_error(command@, element_views(elements@)) == Some(
            text@,
        ),
{
    let success = find_last(elements, "success");
    if let Some(at) = success {
        if same_bytes(value_at(elements, at), "yes".as_bytes()) {
            return Ok(());
        }
    }
    let refused: bool = match success {
        Some(at) => same_bytes(value_at(elements, at), "no".as_bytes()),
        None => false,
    };
    let mut text = String::from_str("VICI ");
    text.append(command);
    text.append(" failed: ");
    if !refused {
        text.append("response does not say success=yes");
        return Err(text);
    }
    match find_last(elements, "errmsg") {
        Some(at) => {
            let reason = from_utf8_lossy(value_at(elements, at));
            text.append(reason.as_str());
        },
        None => {
            text.append("unknown error");
        },
    }
    Err(text)
}

/// Check a VICI reply for `success=yes`, and return an error otherwise.
pub fn check_vici_response(command: &str, resp: &Message) -> (result: Result<(), String>)
    ensures
        result is Ok <==> says_success(message_elements(*resp)),
        result matches Err(text) ==> response_error(command@, message_elements(*resp)) == Some(
            text@,
        ),
{
    check_elements(command, &message_to_elements(resp))
}

/// How many sections are open after the first `n` elements, from the
/// connection's own section on: 0 outside it, 1 directly in it, more in the
/// sections that it holds.
pub open spec fn depth_in(elements: Seq<ViciElement>, n: int, conn_name: Seq<char>) -> nat
    decreases n,
{
    if n <= 0 {
        0
    } else {
        let before = depth_in(elements, n - 1, conn_name);
        match elements[n - 1] {
            ViciElement::SectionStart(name) => if before > 0 || name == conn_name {
                before + 1
            } else {
                0
            },
            ViciElement::SectionEnd => if before > 0 {
                (before - 1) as nat
            } else {
                0
            },
            _ => before,
        }
    }
}

/// Whether the element at `i` says, inside the connection's section, that an
/// association is established.
pub open spec fn says_established(elements: Seq<ViciElement>, i: int, conn_name: Seq<char>) -> bool {
    &&& elements[i] == kv("state"@, "ESTABLISHED"@)
    &&& depth_in(elements, i, conn_name) > 0
}

/// Whether an event shows an established association of the connection: its
/// section contains `state=ESTABLISHED`.
pub open spec fn shows_sa(elements: Seq<ViciElement>, conn_name: Seq<char>) -> bool {
    exists|i: int|
        0 <= i < elements.len() && #[trigger] says_established(elements, i, conn_name)
}

/// Whether the elements of an event show an established association of the
/// connection.
pub fn elements_show_sa(elements: &Vec<Element>, conn_name: &str) -> (shown: bool)
    ensures
        shown == shows_sa(element_views(elements@), conn_name@),
{
    let ghost views = element_views(elements@);
    let mut depth: usize = 0;
    let mut i: usize = 0;
    while i < elements.len()
        invariant
            i <= elements@.len(),
            views == element_views(elements@),
            depth == depth_in(views, i as int, conn_name@),
            depth <= i,
            forall|j: int| 0 <= j < i ==> !#[trigger] says_established(views, j, conn_name@),
        decreases elements@.len() - i,
    {
        assert(views[i as int] == elements@[i as int]@);
        match &elements[i] {
            Element::SectionStart(name) => {
                if depth > 0 || same_text(name.as_str(), conn_name) {
                    depth = depth + 1;
                }
            },
            Element::SectionEnd => {
                if depth > 0 {
                    depth = depth - 1;
                }
            },
            Element::KeyValue(key, value) => {
                if depth > 0 && same_text(key.as_str(), "state") && same_bytes(
                    value.as_slice(),
                    "ESTABLISHED".as_bytes(),
                ) {
                    assert(says_established(views, i as int, conn_name@));
                    return true;
                }
            },
            _ => {},
        }
        i = i + 1;
    }
    false
}

/// Whether an event shows an established association of the connection.
pub fn event_shows_sa(event: &Message, conn_name: &str) -> (shown: bool)
    ensures
        shown == shows_sa(message_elements(*event), conn_name@),
{
    elements_show_sa(&message_to_elements(event), conn_name)
}

/// The query for the associations of a connection.
pub fn sa_query(conn_name: &str) -> (message: Message)
    ensures
        message_elements(message) == seq![kv("ike"@, conn_name@)],
{
    let message = message_kv_str(message_new(), "ike", conn_name);
    assert(message_elements(message) =~= seq![kv("ike"@, conn_name@)]);
    message
}

/// Default VICI socket paths, in the order in which they are tried.
pub fn vici_socket_paths() -> (paths: Vec<String>)
    ensures
        paths@.len() == 3,
        paths@[0]@ == "/run/strongswan/charon.vici"@,
        paths@[1]@ == "/var/run/charon.vici"@,
        paths@[2]@ == "/var/run/strongswan/charon.vici"@,
{
    let mut paths: Vec<String> = Vec::new();
    paths.push(String::from_str("/run/strongswan/charon.vici"));
    paths.push(String::from_str("/var/run/charon.vici"));
    paths.push(String::from_str("/var/run/strongswan/charon.vici"));
    paths
}

/// The error when none of the socket paths can be connected to.
pub fn no_socket_error() -> (text: String)
    ensures
        text@ == "no VICI socket found at: "@ + "/run/strongswan/charon.vici"@ + ", "@
            + "/var/run/charon.vici"@ + ", "@ + "/var/run/strongswan/charon.vici"@,
{
    let paths = vici_socket_paths();
    let mut text = String::from_str("no VICI socket found at: ");
    text.append(paths[0].as_str());
    text.append(", ");
    text.append(paths[1].as_str());
    text.append(", ");
    text.append(paths[2].as_str());
    text
}

/// A reply with `success=no` is answered with the error that it reports, or
/// with "unknown error" if it reports none; no other reply that does not say
/// `success=yes` passes either.
pub proof fn law_only_yes_is_success(command: Seq<char>, elements: Seq<ViciElement>)
    ensures
        response_error(command, elements) is None <==> last_value(elements, "success"@) == Some(
            encode_utf8("yes"@),
        ),
        last_value(elements, "success"@) == Some(encode_utf8("no"@)) ==> response_error(
            command,
            elements,
        ) == Some(
            "VICI "@ + command + " failed: "@ + match last_value(elements, "errmsg"@) {
                Some(value) => utf8_lossy(value),
                None => "unknown error"@,
            },
        ),
{
    encode_utf8_decode_utf8("yes"@);
    encode_utf8_decode_utf8("no"@);
    reveal_strlit("yes");
    reveal_strlit("no");
}

/// An event without a section of the connection shows no association of it,
/// whatever it says of other connections.
pub proof fn law_other_connections_do_not_count(
    elements: Seq<ViciElement>,
    conn_name: Seq<char>,
)
    requires
        forall|i: int|
            0 <= i < elements.len() ==> #[trigger] elements[i] != ViciElement::SectionStart(
                conn_name,
            ),
    ensures
        !shows_sa(elements, conn_name),
{
    assert forall|i: int| 0 <= i < elements.len() implies !#[trigger] says_established(
        elements,
        i,
        conn_name,
    ) by {
        lemma_never_inside(elements, i, conn_name);
    }
}

proof fn lemma_never_inside(elements: Seq<ViciElement>, n: int, conn_name: Seq<char>)
    requires
        n <= elements.len(),
        forall|i: int|
            0 <= i < elements.len() ==> #[trigger] elements[i] != ViciElement::SectionStart(
                conn_name,
            ),
    ensures
        depth_in(elements, n, conn_name) == 0,
    decreases n,
{
    if n > 0 {
        lemma_never_inside(elements, n - 1, conn_name);
        assert(elements[n - 1] != ViciElement::SectionStart(conn_name));
    }
}

/// The value of a key is the one that stands last, whatever stands before it and
/// whatever comes after it that is not that key; a key that does not occur has none.
pub proof fn law_last_value(
    before: Seq<ViciElement>,
    key: Seq<char>,
    value: Seq<u8>,
    rest: Seq<ViciElement>,
)
    requires
        forall|i: int|
            0 <= i < rest.len() ==> !(#[trigger] rest[i] is KeyValue && rest[i]->KeyValue_0 == key),
    ensures
        last_value(before.push(ViciElement::KeyValue(key, value)) + rest, key) == Some(value),
        last_value(rest, key) is None,
    decreases rest.len(),
{
    let all = before.push(ViciElement::KeyValue(key, value)) + rest;
    if rest.len() > 0 {
        let front = rest.drop_last();
        assert forall|i: int| 0 <= i < front.len() implies !(#[trigger] front[i] is KeyValue
            && front[i]->KeyValue_0 == key) by {
            assert(front[i] == rest[i]);
        }
        law_last_value(before, key, value, front);
        assert(all.drop_last() =~= before.push(ViciElement::KeyValue(key, value)) + front);
        assert(all.last() == rest.last());
        assert(!(rest[rest.len() - 1] is KeyValue && rest[rest.len() - 1]->KeyValue_0 == key));
    } else {
        assert(all.last() == ViciElement::KeyValue(key, value));
    }
}

/// A text value is kept as the bytes of the text, so that different texts make
/// different elements.
pub proof fn law_text_elements(name: Seq<char>, a: Seq<char>, b: Seq<char>)
    ensures
        kv(name, a) == ViciElement::KeyValue(name, encode_utf8(a)),
        item(a) == ViciElement::ListItem(encode_utf8(a)),
        kv(name, a) == kv(name, b) <==> a == b,
        item(a) == item(b) <==> a == b,
{
    encode_utf8_decode_utf8(a);
    encode_utf8_decode_utf8(b);
}

/// An association is shown as established if the connection's section says so,
/// be it in a section inside it.
pub proof fn law_established_section_is_shown(
    elements: Seq<ViciElement>,
    conn_name: Seq<char>,
    start: int,
    at: int,
)
    requires
        0 <= start < at < elements.len(),
        elements[start] == ViciElement::SectionStart(conn_name),
        forall|i: int| start < i < at ==> !(#[trigger] elements[i] is SectionEnd),
        elements[at] == ViciElement::KeyValue("state"@, encode_utf8("ESTABLISHED"@)),
    ensures
        shows_sa(elements, conn_name),
{
    lemma_stays_inside(elements, conn_name, start, at);
    assert(says_established(elements, at, conn_name));
}

/// A section inside the connection's one does not end it: behind the inner
/// section's end one is as deep in as before its start.
pub proof fn law_inner_section_does_not_end_it(
    elements: Seq<ViciElement>,
    conn_name: Seq<char>,
    start: int,
    end: int,
)
    requires
        0 <= start < end < elements.len(),
        elements[start] is SectionStart,
        elements[end] is SectionEnd,
        forall|i: int|
            start < i < end ==> !(#[trigger] elements[i] is SectionStart) && !(
            elements[i] is SectionEnd),
        depth_in(elements, start, conn_name) > 0,
    ensures
        depth_in(elements, end + 1, conn_name) == depth_in(elements, start, conn_name),
{
    lemma_depth_is_kept(elements, conn_name, start + 1, end);
}

proof fn lemma_depth_is_kept(elements: Seq<ViciElement>, conn_name: Seq<char>, from: int, to: int)
    requires
        0 < from <= to <= elements.len(),
        forall|i: int|
            from <= i < to ==> !(#[trigger] elements[i] is SectionStart) && !(
            elements[i] is SectionEnd),
    ensures
        depth_in(elements, to, conn_name) == depth_in(elements, from, conn_name),
    decreases to - from,
{
    if from < to {
        lemma_depth_is_kept(elements, conn_name, from, to - 1);
        assert(!(elements[to - 1] is SectionStart) && !(elements[to - 1] is SectionEnd));
    }
}

proof fn lemma_stays_inside(elements: Seq<ViciElement>, conn_name: Seq<char>, start: int, at: int)
    requires
        0 <= start < at <= elements.len(),
        elements[start] == ViciElement::SectionStart(conn_name),
        forall|i: int| start < i < at ==> !(#[trigger] elements[i] is SectionEnd),
    ensures
        depth_in(elements, at, conn_name) > 0,
    decreases at - start,
{
    if at > start + 1 {
        lemma_stays_inside(elements, conn_name, start, at - 1);
        assert(!(elements[at - 1] is SectionEnd));
    }
}

/// An association is shown only by an element that says `state=ESTABLISHED` behind
/// the start of the connection's section, and not by one behind that section's end:
/// what follows a whole section of the connection, with nothing nested in it, counts
/// only if the connection has another one.
pub proof fn law_closed_section_does_not_count(
    before: Seq<ViciElement>,
    inner: Seq<ViciElement>,
    rest: Seq<ViciElement>,
    conn_name: Seq<char>,
)
    requires
        forall|i: int|
            0 <= i < before.len() ==> #[trigger] before[i] != ViciElement::SectionStart(conn_name),
        forall|i: int|
            0 <= i < inner.len() ==> !(#[trigger] inner[i] is SectionStart) && !(
            inner[i] is SectionEnd) && inner[i] != ViciElement::KeyValue(
                "state"@,
                encode_utf8("ESTABLISHED"@),
            ),
        forall|i: int|
            0 <= i < rest.len() ==> #[trigger] rest[i] != ViciElement::SectionStart(conn_name),
    ensures
        !shows_sa(
            before.push(ViciElement::SectionStart(conn_name)) + inner.push(ViciElement::SectionEnd)
                + rest,
            conn_name,
        ),
{
    let start = ViciElement::SectionStart(conn_name);
    let all = before.push(start) + inner.push(ViciElement::SectionEnd) + rest;
    let b = before.len() as int;
    let e = b + 1 + inner.len();
    assert forall|i: int| 0 <= i < all.len() implies all[i] == (if i < b {
        before[i]
    } else if i == b {
        start
    } else if i < e {
        inner[i - b - 1]
    } else if i == e {
        ViciElement::SectionEnd
    } else {
        rest[i - e - 1]
    }) by {}
    assert forall|i: int| 0 <= i < all.len() implies !#[trigger] says_established(
        all,
        i,
        conn_name,
    ) by {
        lemma_depth_around(all, conn_name, b, e, i);
        if b < i < e {
            assert(all[i] == inner[i - b - 1]);
        }
    }
}

proof fn lemma_depth_around(
    all: Seq<ViciElement>,
    conn_name: Seq<char>,
    b: int,
    e: int,
    n: int,
)
    requires
        0 <= b < e < all.len(),
        0 <= n <= all.len(),
        forall|i: int|
            0 <= i < all.len() && i != b ==> #[trigger] all[i] != ViciElement::SectionStart(
                conn_name,
            ),
        all[b] == ViciElement::SectionStart(conn_name),
        all[e] is SectionEnd,
        forall|i: int|
            b < i < e ==> !(#[trigger] all[i] is SectionStart) && !(all[i] is SectionEnd),
    ensures
        depth_in(all, n, conn_name) == (if b < n <= e {
            1nat
        } else {
            0nat
        }),
    decreases n,
{
    if n > 0 {
        lemma_depth_around(all, conn_name, b, e, n - 1);
        assert(n - 1 != b ==> all[n - 1] != ViciElement::SectionStart(conn_name));
        assert(b < n - 1 < e ==> !(all[n - 1] is SectionStart) && !(all[n - 1] is SectionEnd));
    }
}

} // verus!
