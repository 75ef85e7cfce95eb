//! What the display is asked to show: a title and some lines of text, each of bounded length.
use crate::geometry::Point;
use crate::three_color::ThreeColor;
use vstd::prelude::*;
use vstd::string::StringSliceAdditionalSpecFns;
use vstd::utf8::{is_char_boundary, valid_utf8};

verus! {

/// How many bytes of text a line holds.
pub const STRING_CAPACITY: usize = 80;

/// How many lines a panel holds below its title.
pub const MAX_BODY_LINES: usize = 10;

/// `heapless::String`, a string in a buffer of fixed size. Nothing is known of its inside.
#[verifier::external_type_specification]
#[verifier::external_body]
pub struct ExBoundedString<const N: usize>(heapless::String<N>);

/// `heapless::Vec`, a vector in a buffer of fixed size. Nothing is known of its inside.
#[verifier::external_type_specification]
#[verifier::external_body]
#[verifier::reject_recursive_types(T)]
pub struct ExBoundedVec<T, const N: usize>(heapless::Vec<T, N>);

/// The bytes that a bounded string holds: its text in UTF-8.
pub uninterp spec fn string_bytes(text: heapless::String<80>) -> Seq<u8>;

/// The lines that a bounded vector of lines holds, first to last.
pub uninterp spec fn body_lines(body: heapless::Vec<TextLine, 10>) -> Seq<TextLineView>;

/// `heapless::String::try_from`: a string that holds the text of `slice`, where that has at
/// most eighty bytes, and none where it has more.
#[verifier::external_body]
fn bounded_string(slice: &str) -> (text: Option<heapless::String<80>>)
    ensures
        text is Some <==> slice.spec_bytes().len() <= 80,
        text matches Some(text) ==> string_bytes(text) == slice.spec_bytes(),
{
    heapless::String::try_from(slice).ok()
}

/// `heapless::String::as_str`: the text that the string holds.
#[verifier::external_body]
fn string_as_str(text: &heapless::String<80>) -> (slice: &str)
    ensures
        slice.spec_bytes() == string_bytes(*text),
{
    text.as_str()
}

/// `heapless::Vec::new`: a vector that holds no line.
#[verifier::external_body]
fn no_lines() -> (body: heapless::Vec<TextLine, 10>)
    ensures
        body_lines(body) == Seq::<TextLineView>::empty(),
{
    heapless::Vec::new()
}

/// `len` of the slice that a `heapless::Vec` stands for: the number of lines held, which is
/// never more than the ten that the vector has room for.
#[verifier::external_body]
fn count_lines(body: &heapless::Vec<TextLine, 10>) -> (len: usize)
    ensures
        len == body_lines(*body).len(),
        len <= 10,
{
    body.len()
}

/// `get` of the slice that a `heapless::Vec` stands for: the line at the index, or none where
/// the index is not less than the number of lines.
#[verifier::external_body]
fn line_at(body: &heapless::Vec<TextLine, 10>, i: usize) -> (line: Option<&TextLine>)
    ensures
        i < body_lines(*body).len() ==> line is Some && line->0@ == body_lines(*body)[i as int],
        i >= body_lines(*body).len() ==> line is None,
{
    body.get(i)
}

/// `heapless::Vec::push`: the line becomes the last one where fewer than ten are held; where
/// ten are held the vector stays as it is and the line is handed back.
#[verifier::external_body]
fn push_line(body: &mut heapless::Vec<TextLine, 10>, line: TextLine) -> (pushed: Result<
    (),
    TextLine,
>)
    ensures
        body_lines(*old(body)).len() < 10 ==> pushed is Ok && body_lines(*final(body))
            == body_lines(*old(body)).push(line@),
        body_lines(*old(body)).len() >= 10 ==> pushed is Err && pushed->Err_0@ == line@
            && body_lines(*final(body)) == body_lines(*old(body)),
{
    body.push(line)
}

/// The last character boundary of the text `bytes` that is not past `index`.
pub open spec fn floor_char_boundary_of(bytes: Seq<u8>, index: int) -> int
    decreases index,
{
    if index <= 0 {
        0
    } else if index >= bytes.len() {
        bytes.len() as int
    } else if is_char_boundary(bytes, index) {
        index
    } else {
        floor_char_boundary_of(bytes, index - 1)
    }
}

/// The longest part of the text `bytes` that begins where it begins, ends between two
/// characters and has at most `capacity` bytes.
pub open spec fn truncated(bytes: Seq<u8>, capacity: int) -> Seq<u8> {
    bytes.subrange(0, floor_char_boundary_of(bytes, capacity))
}

/// `floor_char_boundary_of` is a character boundary, is not past the index nor the end of the
/// text, and no boundary lies between it and the index.
pub proof fn lemma_floor_char_boundary(bytes: Seq<u8>, index: int)
    requires
        valid_utf8(bytes),
        0 <= index,
    ensures
        0 <= floor_char_boundary_of(bytes, index) <= index,
        floor_char_boundary_of(bytes, index) <= bytes.len(),
        is_char_boundary(bytes, floor_char_boundary_of(bytes, index)),
        forall|between: int|
            floor_char_boundary_of(bytes, index) < between <= index && between <= bytes.len()
                ==> !is_char_boundary(bytes, between),
    decreases index,
{
    vstd::utf8::is_char_boundary_start_end_of_seq(bytes);
    if 0 < index < bytes.len() && !is_char_boundary(bytes, index) {
        lemma_floor_char_boundary(bytes, index - 1);
    }
}

/// A text that is cut to a capacity is the beginning of the text, is text itself and has no
/// more bytes than the capacity; a text that fits is kept whole.
pub proof fn lemma_truncated(bytes: Seq<u8>, capacity: int)
    requires
        valid_utf8(bytes),
        0 <= capacity,
    ensures
        truncated(bytes, capacity).len() <= capacity,
        truncated(bytes, capacity).is_prefix_of(bytes),
        valid_utf8(truncated(bytes, capacity)),
        bytes.len() <= capacity ==> truncated(bytes, capacity) == bytes,
{
    lemma_floor_char_boundary(bytes, capacity);
    vstd::utf8::valid_utf8_split(bytes, floor_char_boundary_of(bytes, capacity));
    if bytes.len() <= capacity {
        assert(truncated(bytes, capacity) =~= bytes);
    }
}

/// The number of bytes of the text.
fn byte_len(slice: &str) -> (len: usize)
    ensures
        len == slice.spec_bytes().len(),
{
    slice.as_bytes().len()
}

/// The last character boundary of `slice` that is not past `index`.
pub fn floor_char_boundary(slice: &str, index: usize) -> (boundary: usize)
    ensures
        boundary == floor_char_boundary_of(slice.spec_bytes(), index as int),
{
    proof {
        vstd::utf8::encode_utf8_valid_utf8(slice@);
        vstd::utf8::is_char_boundary_start_end_of_seq(slice.spec_bytes());
    }
    let len = byte_len(slice);
    if index >= len {
        len
    } else {
        let mut boundary: usize = index;
        while !slice.is_char_boundary(boundary)
            invariant
                boundary <= index < slice.spec_bytes().len(),
                valid_utf8(slice.spec_bytes()),
                is_char_boundary(slice.spec_bytes(), 0),
                floor_char_boundary_of(slice.spec_bytes(), boundary as int)
                    == floor_char_boundary_of(slice.spec_bytes(), index as int),
            decreases boundary,
        {
            boundary = boundary - 1;
        }
        boundary
    }
}

/// A line of text in one colour, as a mathematical value.
pub struct TextLineView {
    /// The text in UTF-8.
    pub text: Seq<u8>,
    pub color: ThreeColor,
}

/// A line of text in one colour. The text has at most eighty bytes.
pub struct TextLine {
    text: heapless::String<80>,
    color: ThreeColor,
}

impl View for TextLine {
    type V = TextLineView;

    closed spec fn view(&self) -> TextLineView {
        TextLineView { text: string_bytes(self.text), color: self.color }
    }
}

impl TextLine {
    /// The line that shows `text` in `color`, cut after the last character that ends within
    /// the first eighty bytes.
    pub fn new(text: &str, color: ThreeColor) -> (line: Self)
        ensures
            line@ == (TextLineView { text: truncated(text.spec_bytes(), 80), color }),
    {
        let text = Self::string_from(text).unwrap();
        TextLine { text, color }
    }

    /// The text of the line.
    pub fn text(&self) -> (text: &str)
        ensures
            text.spec_bytes() == self@.text,
    {
        string_as_str(&self.text)
    }

    /// The colour of the line.
    pub fn color(&self) -> (color: ThreeColor)
        ensures
            color == self@.color,
    {
        self.color
    }

    fn string_from(slice: &str) -> (text: Option<heapless::String<80>>)
        ensures
            text is Some,
            string_bytes(text->0) == truncated(slice.spec_bytes(), 80),
    {
        proof {
            vstd::utf8::encode_utf8_valid_utf8(slice@);
            lemma_floor_char_boundary(slice.spec_bytes(), 80);
        }
        if byte_len(slice) <= STRING_CAPACITY {
            assert(slice.spec_bytes().subrange(0, slice.spec_bytes().len() as int)
                =~= slice.spec_bytes());
            bounded_string(slice)
        } else {
            let last = floor_char_boundary(slice, STRING_CAPACITY);
            bounded_string(slice.split_at(last).0)
        }
    }
}

/// A title and the lines below it, as a mathematical value.
pub struct TextPanelView {
    pub title: TextLineView,
    pub body: Seq<TextLineView>,
}

/// A title and at most ten lines below it.
pub struct TextPanelContent {
    title: TextLine,
    body: heapless::Vec<TextLine, 10>,
}

impl View for TextPanelContent {
    type V = TextPanelView;

    closed spec fn view(&self) -> TextPanelView {
        TextPanelView { title: self.title@, body: body_lines(self.body) }
    }
}

impl TextPanelContent {
    /// A panel with the title and no line below it.
    pub fn new(title: TextLine) -> (content: Self)
        ensures
            content@ == (TextPanelView { title: title@, body: Seq::empty() }),
    {
        TextPanelContent { title, body: no_lines() }
    }

    /// The title of the panel.
    pub fn title(&self) -> (title: &TextLine)
        ensures
            title@ == self@.title,
    {
        &self.title
    }

    /// The number of lines below the title.
    pub fn body_len(&self) -> (len: usize)
        ensures
            len == self@.body.len(),
            len <= 10,
    {
        count_lines(&self.body)
    }

    /// The line with the given number, counted from zero, if there is one.
    pub fn body_line(&self, i: usize) -> (line: Option<&TextLine>)
        ensures
            i < self@.body.len() ==> line is Some && line->0@ == self@.body[i as int],
            i >= self@.body.len() ==> line is None,
    {
        line_at(&self.body, i)
    }

    /// Adds a line below the others, unless there are ten already.
    pub fn add_body_line(&mut self, body_line: TextLine) -> (added: Result<(), ()>)
        ensures
            added is Ok <==> old(self)@.body.len() < 10,
            added is Ok ==> final(self)@ == (TextPanelView {
                body: old(self)@.body.push(body_line@),
                ..old(self)@
            }),
            added is Err ==> final(self)@ == old(self)@,
    {
        match push_line(&mut self.body, body_line) {
            Ok(()) => Ok(()),
            Err(_) => Err(()),
        }
    }
}

impl TextPanelView {
    /// The panel that a message with a title and lines of text asks for: each text cut to
    /// eighty bytes, everything in black.
    pub open spec fn of_message(title: Seq<u8>, body: Seq<Seq<u8>>) -> TextPanelView {
        TextPanelView {
            title: TextLineView { text: truncated(title, 80), color: ThreeColor::Black },
            body: Seq::new(
                body.len(),
                |i: int| TextLineView { text: truncated(body[i], 80), color: ThreeColor::Black },
            ),
        }
    }
}

/// The texts of the lines, each in UTF-8.
pub open spec fn texts_of(body: Seq<&str>) -> Seq<Seq<u8>> {
    Seq::new(body.len(), |i: int| body[i].spec_bytes())
}

impl TextPanelContent {
    /// The panel that a message asks for, or none where the message has more than ten lines.
    pub fn from_message(title: &str, body: &[&str]) -> (content: Option<Self>)
        ensures
            content is Some <==> body@.len() <= 10,
            content is Some ==> content->0@ == TextPanelView::of_message(
                title.spec_bytes(),
                texts_of(body@),
            ),
    {
        let ghost wanted = TextPanelView::of_message(title.spec_bytes(), texts_of(body@));
        let title = TextLine::new(title, ThreeColor::Black);
        let mut content = TextPanelContent::new(title);

        for i in 0..body.len()
            invariant
                i <= 10,
                wanted.body.len() == body@.len(),
                forall|j: int|
                    0 <= j < body@.len() ==> wanted.body[j] == (TextLineView {
                        text: truncated((#[trigger] body@[j]).spec_bytes(), 80),
                        color: ThreeColor::Black,
                    }),
                content@.title == wanted.title,
                content@.body == wanted.body.take(i as int),
        {
            let body_line = TextLine::new(body[i], ThreeColor::Black);
            match content.add_body_line(body_line) {
                Ok(()) => {},
                Err(()) => {
                    return None;
                },
            }
            assert(content@.body =~= wanted.body.take(i + 1));
        }
        assert(content@.body =~= wanted.body);

        Some(content)
    }
}

/// Where the line with the given number begins on the display: lines are 22 pixels apart,
/// two pixels from the left edge, the first one at 55. None where the place does not fit 32
/// bits.
pub fn body_line_origin(i: usize) -> (origin: Option<Point>)
    ensures
        origin == if 55 + 22 * i <= i32::MAX {
            Some(Point { x: 2, y: (55 + 22 * i) as i32 })
        } else {
            None
        },
{
    if i <= 97612890 {
        let row: i32 = i as i32;
        Some(Point::new(2, 55 + row * 22))
    } else {
        None
    }
}

/// What the display is asked to do.
pub enum DisplayCmd {
    /// Nothing.
    Nothing,
    /// Show the panel of text.
    TextPanel(TextPanelContent),
}

} // verus!
