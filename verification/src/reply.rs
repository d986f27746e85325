//! Messages of a thread, and the reply text that is read out of one.
use vstd::prelude::*;
use vstd::string::StringExecFns;

verus! {

/// One part of a message's content.
#[derive(Clone, Debug, PartialEq, Eq)]
pub enum ContentPart {
    /// Text, as the assistant wrote it.
    Text(String),
    /// An image. It takes no part in a reply, so nothing of it is kept.
    Image,
}

/// A content part as contracts see it.
pub enum ContentPartView {
    Text(Seq<char>),
    Image,
}

impl View for ContentPart {
    type V = ContentPartView;

    open spec fn view(&self) -> ContentPartView {
        match *self {
            ContentPart::Text(s) => ContentPartView::Text(s@),
            ContentPart::Image => ContentPartView::Image,
        }
    }
}

/// A message of a thread: its content parts in the order of the service.
#[derive(Clone, Debug, PartialEq, Eq)]
pub struct Message {
    pub content: Vec<ContentPart>,
}

impl View for Message {
    type V = Seq<ContentPartView>;

    open spec fn view(&self) -> Seq<ContentPartView> {
        parts_view(self.content@)
    }
}

/// The views of a sequence of parts, in the same order.
pub open spec fn parts_view(parts: Seq<ContentPart>) -> Seq<ContentPartView> {
    Seq::new(parts.len(), |i: int| parts[i]@)
}

/// The views of a page of messages, in the same order.
pub open spec fn page_view(page: Seq<Message>) -> Seq<Seq<ContentPartView>> {
    Seq::new(page.len(), |i: int| page[i]@)
}

/// What one part adds to a reply: its text, or nothing.
pub open spec fn part_text(part: ContentPartView) -> Seq<char> {
    match part {
        ContentPartView::Text(s) => s,
        ContentPartView::Image => Seq::empty(),
    }
}

/// The reply read out of a message: the texts of its text parts, in order and
/// with nothing between them. Parts that are no text add nothing.
pub open spec fn joined_text(parts: Seq<ContentPartView>) -> Seq<char>
    decreases parts.len(),
{
    if parts.len() == 0 {
        Seq::empty()
    } else {
        joined_text(parts.drop_last()) + part_text(parts.last())
    }
}

/// The text parts of a message, in order.
pub open spec fn text_parts(parts: Seq<ContentPartView>) -> Seq<ContentPartView> {
    parts.filter(|p: ContentPartView| p is Text)
}

/// Reads the reply out of the content of a message.
pub fn reply_text(parts: &Vec<ContentPart>) -> (reply: String)
    ensures
        reply@ == joined_text(parts_view(parts@)),
{
    let mut reply = String::new();
    let mut i: usize = 0;
    while i < parts.len()
        invariant
            i <= parts.len(),
            reply@ == joined_text(parts_view(parts@).take(i as int)),
        decreases parts.len() - i,
    {
        proof {
            let all = parts_view(parts@);
            assert(all.take(i + 1).drop_last() == all.take(i as int));
            assert(all.take(i + 1).last() == parts@[i as int]@);
        }
        match &parts[i] {
            ContentPart::Text(s) => {
                reply.append(s.as_str());
            },
            ContentPart::Image => {
                assert(reply@ + Seq::<char>::empty() == reply@);
            },
        }
        i += 1;
    }
    proof {
        let all = parts_view(parts@);
        assert(all.take(parts.len() as int) == all);
    }
    reply
}

/// The reply of the newest message on a page, which is the page's last item.
/// An empty page holds no reply.
pub fn latest_reply(page: &Vec<Message>) -> (reply: Option<String>)
    ensures
        reply is Some <==> page@.len() > 0,
        reply matches Some(r) ==> r@ == joined_text(page@.last()@),
{
    if page.len() == 0 {
        None
    } else {
        Some(reply_text(&page[page.len() - 1].content))
    }
}

/// The reply of two runs of parts, one after the other, is the two replies one
/// after the other.
pub proof fn lemma_joined_text_concat(a: Seq<ContentPartView>, b: Seq<ContentPartView>)
    ensures
        joined_text(a + b) == joined_text(a) + joined_text(b),
    decreases b.len(),
{
    if b.len() == 0 {
        assert(a + b == a);
        assert(joined_text(a) + Seq::<char>::empty() == joined_text(a));
    } else {
        lemma_joined_text_concat(a, b.drop_last());
        assert((a + b).drop_last() == a + b.drop_last());
        assert((a + b).last() == b.last());
        assert(joined_text(a) + joined_text(b.drop_last()) + part_text(b.last()) == joined_text(a)
            + (joined_text(b.drop_last()) + part_text(b.last())));
    }
}

/// Parts that are no text are dropped: the reply of a message is the reply of
/// its text parts alone.
pub proof fn lemma_non_text_parts_dropped(parts: Seq<ContentPartView>)
    ensures
        joined_text(parts) == joined_text(text_parts(parts)),
    decreases parts.len(),
{
    reveal(Seq::filter);
    if parts.len() > 0 {
        let front = parts.drop_last();
        lemma_non_text_parts_dropped(front);
        if parts.last() is Text {
            assert(text_parts(parts) == text_parts(front).push(parts.last()));
            assert(text_parts(parts).drop_last() == text_parts(front));
        } else {
            assert(text_parts(parts) == text_parts(front));
            assert(joined_text(front) + Seq::<char>::empty() == joined_text(front));
        }
    }
}

/// A message with a single text part replies with exactly that text.
pub proof fn lemma_single_text_reply(text: Seq<char>)
    ensures
        joined_text(seq![ContentPartView::Text(text)]) == text,
{
    let parts = seq![ContentPartView::Text(text)];
    assert(parts.drop_last().len() == 0);
    assert(joined_text(parts.drop_last()) == Seq::<char>::empty());
    assert(Seq::<char>::empty() + text == text);
}

} // verus!
