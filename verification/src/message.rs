//! The outgoing message: its markup dialect and its text.

use vstd::prelude::*;
use vstd::string::StringExecFns;

verus! {

/// Markup dialect in which the messaging platform reads a message text.
#[derive(Clone, Copy, Debug, PartialEq, Eq, Structural)]
pub enum PraseMode {
    MarkdownV2,
    HTML,
    Markdown,
}

impl PraseMode {
    /// The dialect's name as the platform spells it.
    pub open spec fn text(self) -> Seq<char> {
        match self {
            PraseMode::HTML => "HTML"@,
            PraseMode::Markdown => "Markdown"@,
            PraseMode::MarkdownV2 => "MarkdownV2"@,
        }
    }

    /// The name under which a message declares this dialect.
    pub fn as_text(&self) -> (name: &'static str)
        ensures
            name@ == self.text(),
    {
        match self {
            PraseMode::HTML => "HTML",
            PraseMode::Markdown => "Markdown",
            PraseMode::MarkdownV2 => "MarkdownV2",
        }
    }
}

/// The characters that MarkdownV2 reads as markup, and the backslash that
/// escapes them.
pub open spec fn reserved(c: char) -> bool {
    c == '_' || c == '*' || c == '[' || c == ']' || c == '(' || c == ')' || c == '~' || c == '`'
        || c == '>' || c == '#' || c == '+' || c == '-' || c == '=' || c == '|' || c == '{'
        || c == '}' || c == '.' || c == '!' || c == '\\'
}

/// A character as it stands in an escaped text: behind a backslash where it
/// is reserved.
pub open spec fn escaped_char(c: char) -> Seq<char> {
    if reserved(c) {
        seq!['\\', c]
    } else {
        seq![c]
    }
}

/// The escaped form of a text: each of its characters, escaped, in order.
pub open spec fn escaped(s: Seq<char>) -> Seq<char>
    decreases s.len(),
{
    if s.len() == 0 {
        Seq::empty()
    } else {
        escaped(s.drop_last()) + escaped_char(s.last())
    }
}

/// The text of which `t` is the escaped form: a backslash is dropped and
/// the character after it kept.
pub open spec fn unescaped(t: Seq<char>) -> Seq<char>
    decreases t.len(),
{
    if t.len() == 0 {
        Seq::empty()
    } else if t[0] == '\\' && t.len() >= 2 {
        seq![t[1]] + unescaped(t.skip(2))
    } else {
        seq![t[0]] + unescaped(t.skip(1))
    }
}

/// Escaping goes character by character: the escaped form of two texts in
/// a row is the two escaped forms in a row.
pub proof fn lemma_escaped_concat(a: Seq<char>, b: Seq<char>)
    ensures
        escaped(a + b) == escaped(a) + escaped(b),
    decreases b.len(),
{
    if b.len() == 0 {
        assert(a + b == a);
    } else {
        lemma_escaped_concat(a, b.drop_last());
        assert((a + b).drop_last() == a + b.drop_last());
        assert((a + b).last() == b.last());
    }
}

/// Escaping loses nothing: the text can be read back from its escaped form.
pub proof fn lemma_unescaped_escaped(s: Seq<char>)
    ensures
        unescaped(escaped(s)) == s,
    decreases s.len(),
{
    if s.len() > 0 {
        let head = seq![s[0]];
        let rest = s.drop_first();
        assert(s == head + rest);
        lemma_escaped_concat(head, rest);
        assert(head.drop_last() == Seq::<char>::empty());
        assert(escaped(head.drop_last()) == Seq::<char>::empty());
        assert(escaped(head) == Seq::<char>::empty() + escaped_char(head.last()));
        assert(escaped(head) == escaped_char(s[0]));
        lemma_unescaped_escaped(rest);
        let t = escaped(s);
        if reserved(s[0]) {
            assert(t.skip(2) == escaped(rest));
        } else {
            assert(t.skip(1) == escaped(rest));
        }
        assert(unescaped(t) == head + rest);
    }
}

/// Whether MarkdownV2 wants the character escaped.
pub fn is_reserved(c: char) -> (r: bool)
    ensures
        r == reserved(c),
{
    c == '_' || c == '*' || c == '[' || c == ']' || c == '(' || c == ')' || c == '~' || c == '`'
        || c == '>' || c == '#' || c == '+' || c == '-' || c == '=' || c == '|' || c == '{'
        || c == '}' || c == '.' || c == '!' || c == '\\'
}

/// Escapes a text for MarkdownV2, so that the platform shows it as it is.
pub fn escape(text: &str) -> (out: String)
    ensures
        out@ == escaped(text@),
{
    let mut out = String::new();
    for c in it: text.chars()
        invariant
            it.seq() == text@,
            out@ == escaped(text@.take(it.index())),
    {
        assert(text@.take(it.index() + 1).drop_last() == text@.take(it.index()));
        if is_reserved(c) {
            out.push('\\');
        }
        out.push(c);
    }
    assert(text@.take(text@.len() as int) == text@);
    out
}

/// The figures of one quote snapshot, each already rendered with two decimals
/// and not yet escaped.
#[derive(Debug, PartialEq, Eq)]
pub struct PriceFigures {
    /// Egyptian pounds for one US dollar.
    pub egp: String,
    /// Saudi riyals for one US dollar.
    pub sar: String,
    /// Egyptian pounds for one Saudi riyal, derived from the two rates above.
    pub sar_egp: String,
    /// Egyptian pounds for one gram of gold, by fineness.
    pub gold_24k: String,
    pub gold_22k: String,
    pub gold_21k: String,
    pub gold_20k: String,
    pub gold_18k: String,
}

/// The figures as values.
pub struct PriceFiguresView {
    pub egp: Seq<char>,
    pub sar: Seq<char>,
    pub sar_egp: Seq<char>,
    pub gold_24k: Seq<char>,
    pub gold_22k: Seq<char>,
    pub gold_21k: Seq<char>,
    pub gold_20k: Seq<char>,
    pub gold_18k: Seq<char>,
}

impl View for PriceFigures {
    type V = PriceFiguresView;

    open spec fn view(&self) -> PriceFiguresView {
        PriceFiguresView {
            egp: self.egp@,
            sar: self.sar@,
            sar_egp: self.sar_egp@,
            gold_24k: self.gold_24k@,
            gold_22k: self.gold_22k@,
            gold_21k: self.gold_21k@,
            gold_20k: self.gold_20k@,
            gold_18k: self.gold_18k@,
        }
    }
}

/// One line of the message: a figure, escaped, between two fixed pieces of markup.
pub open spec fn row(lead: Seq<char>, figure: Seq<char>, tail: Seq<char>) -> Seq<char> {
    lead + escaped(figure) + tail
}

/// The text of the price update for one snapshot.
pub open spec fn price_text(f: PriceFiguresView) -> Seq<char> {
    "*Price updates 🔥🔥*"@
        + row("\n1 USD \\= *"@, f.egp, "* EGP"@)
        + row("\n1 USD \\= *"@, f.sar, "* SAR"@)
        + row("\n1 SAR \\= *"@, f.sar_egp, "* EGP"@)
        + "\n*📈 Gold prices _\\(1g\\)_* 👇👇"@
        + row("\nGold 24k ⏩ "@, f.gold_24k, " EGP"@)
        + row("\nGold 22k ⏩ "@, f.gold_22k, " EGP"@)
        + row("\nGold 21k ⏩ "@, f.gold_21k, " EGP"@)
        + row("\nGold 20k ⏩ "@, f.gold_20k, " EGP"@)
        + row("\nGold 18k ⏩ "@, f.gold_18k, " EGP"@)
}

/// Appends one line: the lead, the figure escaped, the tail.
fn push_row(out: &mut String, lead: &str, figure: &str, tail: &str)
    ensures
        final(out)@ == old(out)@ + row(lead@, figure@, tail@),
{
    let shown = escape(figure);
    out.append(lead);
    out.append(shown.as_str());
    out.append(tail);
    assert(out@ == old(out)@ + row(lead@, figure@, tail@));
}

/// What is sent to the platform for one recipient.
#[derive(Debug, PartialEq, Eq)]
pub struct MessageBody {
    pub chat_id: String,
    pub text: String,
    pub parse_mode: &'static str,
}

/// A message as a value.
pub struct MessageBodyView {
    pub chat_id: Seq<char>,
    pub text: Seq<char>,
    pub parse_mode: Seq<char>,
}

impl View for MessageBody {
    type V = MessageBodyView;

    open spec fn view(&self) -> MessageBodyView {
        MessageBodyView { chat_id: self.chat_id@, text: self.text@, parse_mode: self.parse_mode@ }
    }
}

/// The message that carries the snapshot `f` to the chat `chat_id`.
pub open spec fn price_message(chat_id: Seq<char>, f: PriceFiguresView) -> MessageBodyView {
    MessageBodyView {
        chat_id,
        text: price_text(f),
        parse_mode: PraseMode::MarkdownV2.text(),
    }
}

/// Renders the text of the price update for one snapshot.
pub fn render(figures: &PriceFigures) -> (text: String)
    ensures
        text@ == price_text(figures@),
{
    let mut text = String::from_str("*Price updates 🔥🔥*");
    push_row(&mut text, "\n1 USD \\= *", figures.egp.as_str(), "* EGP");
    push_row(&mut text, "\n1 USD \\= *", figures.sar.as_str(), "* SAR");
    push_row(&mut text, "\n1 SAR \\= *", figures.sar_egp.as_str(), "* EGP");
    text.append("\n*📈 Gold prices _\\(1g\\)_* 👇👇");
    push_row(&mut text, "\nGold 24k ⏩ ", figures.gold_24k.as_str(), " EGP");
    push_row(&mut text, "\nGold 22k ⏩ ", figures.gold_22k.as_str(), " EGP");
    push_row(&mut text, "\nGold 21k ⏩ ", figures.gold_21k.as_str(), " EGP");
    push_row(&mut text, "\nGold 20k ⏩ ", figures.gold_20k.as_str(), " EGP");
    push_row(&mut text, "\nGold 18k ⏩ ", figures.gold_18k.as_str(), " EGP");
    text
}

impl MessageBody {
    /// The price update for one snapshot, addressed to one chat.
    pub fn new(chat_id: &str, figures: &PriceFigures) -> (body: MessageBody)
        ensures
            body@ == price_message(chat_id@, figures@),
    {
        MessageBody {
            chat_id: String::from_str(chat_id),
            text: render(figures),
            parse_mode: PraseMode::MarkdownV2.as_text(),
        }
    }
}

} // verus!
