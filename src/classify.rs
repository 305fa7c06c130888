use vstd::prelude::*;
use vstd::utf8::encode_utf8;

verus! {

/// An inbound chat message, reduced to what the decision engine reads.
pub struct InboundMessage {
    /// Identifier of the message itself, used to thread the reply.
    pub id: u64,
    pub channel_id: u64,
    pub author_is_bot: bool,
    pub content: String,
    /// Number of file attachments.
    pub attachment_count: usize,
    /// Number of embeds.
    pub embed_count: usize,
}

/// The bytes of `"http://"`.
pub open spec fn http_marker() -> Seq<u8> {
    seq![104u8, 116u8, 116u8, 112u8, 58u8, 47u8, 47u8]
}

/// The bytes of `"https://"`.
pub open spec fn https_marker() -> Seq<u8> {
    seq![104u8, 116u8, 116u8, 112u8, 115u8, 58u8, 47u8, 47u8]
}

/// `needle` occurs in `hay` starting at position `i`.
pub open spec fn occurs_at(hay: Seq<u8>, needle: Seq<u8>, i: int) -> bool {
    0 <= i && i + needle.len() <= hay.len() && hay.subrange(i, i + needle.len()) == needle
}

/// `needle` occurs somewhere in `hay`.
pub open spec fn contains_bytes(hay: Seq<u8>, needle: Seq<u8>) -> bool {
    exists|i: int| occurs_at(hay, needle, i)
}

/// A message is meme content when it has an embed or an attachment, or when its
/// text holds a web link.
pub open spec fn is_meme_spec(
    embeds: nat,
    attachments: nat,
    content: Seq<u8>,
) -> bool {
    embeds > 0 || attachments > 0 || contains_bytes(content, https_marker())
        || contains_bytes(content, http_marker())
}

pub open spec fn message_is_meme_spec(m: &InboundMessage) -> bool {
    is_meme_spec(m.embed_count as nat, m.attachment_count as nat, encode_utf8(m.content@))
}

fn matches_at(hay: &[u8], needle: &[u8], i: usize) -> (r: bool)
    requires
        i + needle@.len() <= hay@.len(),
    ensures
        r == occurs_at(hay@, needle@, i as int),
{
    let n: usize = hay.len();
    let mut k: usize = 0;
    while k < needle.len()
        invariant
            k <= needle@.len(),
            i + needle@.len() <= hay@.len(),
            hay@.len() <= usize::MAX,
            forall|j: int| 0 <= j < k ==> hay@[i + j] == needle@[j],
        decreases needle@.len() - k,
    {
        if hay[i + k] != needle[k] {
            assert(hay@.subrange(i as int, i + needle@.len())[k as int] != needle@[k as int]);
            return false;
        }
        k = k + 1;
    }
    assert(hay@.subrange(i as int, i + needle@.len()) =~= needle@);
    true
}

/// Whether `needle` occurs as a contiguous run of bytes in `hay`.
pub fn find_bytes(hay: &[u8], needle: &[u8]) -> (r: bool)
    ensures
        r == contains_bytes(hay@, needle@),
{
    if needle.len() > hay.len() {
        assert(forall|i: int| !occurs_at(hay@, needle@, i));
        return false;
    }
    let last: usize = hay.len() - needle.len();
    let mut i: usize = 0;
    loop
        invariant
            i <= last,
            last + needle@.len() == hay@.len(),
            forall|j: int| 0 <= j < i ==> !occurs_at(hay@, needle@, j),
        decreases last - i,
    {
        if matches_at(hay, needle, i) {
            return true;
        }
        if i == last {
            assert(forall|j: int| !occurs_at(hay@, needle@, j));
            return false;
        }
        i = i + 1;
    }
}

/// Whether a message counts as meme content: it has an embed or an attachment,
/// or its text contains `"https://"` or `"http://"`.
pub fn message_is_meme(msg: &InboundMessage) -> (r: bool)
    ensures
        r == message_is_meme_spec(msg),
{
    if msg.embed_count > 0 || msg.attachment_count > 0 {
        return true;
    }
    let text: &[u8] = msg.content.as_str().as_bytes();
    let https: Vec<u8> = vec![104u8, 116u8, 116u8, 112u8, 115u8, 58u8, 47u8, 47u8];
    let http: Vec<u8> = vec![104u8, 116u8, 116u8, 112u8, 58u8, 47u8, 47u8];
    assert(https@ =~= https_marker());
    assert(http@ =~= http_marker());
    find_bytes(text, https.as_slice()) || find_bytes(text, http.as_slice())
}

/// Classification reads the embeds, the attachments and the text alone: two
/// messages that agree on those are classified alike, whoever wrote them and
/// wherever they were posted.
pub proof fn lemma_meme_depends_on_payload(a: &InboundMessage, b: &InboundMessage)
    requires
        a.embed_count == b.embed_count,
        a.attachment_count == b.attachment_count,
        a.content@ == b.content@,
    ensures
        message_is_meme_spec(a) == message_is_meme_spec(b),
{
}

} // verus!
