//! Colours for the kinds of things that messages name.
//!
//! The colours come from the `colored` crate, which decides from its
//! surroundings whether it colours at all. A coloured text is therefore one
//! of two things: the text as it is, or the text between the sequence of its
//! colour and the sequence that switches colours off. Every highlight is
//! stated up to that choice, which is made anew for each part it colours.

use crate::strings::chunk_by_any::{chunks_of, glued, lemma_glued_push, ChunkByAny};
use crate::text::{
    after_prefix, before_suffix, join, joined_with, pieces_between, same_text, slice_views,
    split_by, strip_prefix, strip_suffix, trim, trimmed, views,
};
use colored::Colorize;
use vstd::prelude::*;
use vstd::string::StringExecFns;

verus! {

/// The separator of the modules in a path.
pub const MODULE_SEPARATOR: &'static str = "::";

/// The sequence that switches colours off.
pub open spec fn reset_sequence() -> Seq<char> {
    seq!['\x1B', '[', '0', 'm']
}

/// The sequence that switches to the colour with the code `code`.
pub open spec fn color_sequence(code: Seq<char>) -> Seq<char> {
    seq!['\x1B', '['] + code + seq!['m']
}

/// The code of the bright colour whose last digit is `digit`.
pub open spec fn bright(digit: char) -> Seq<char> {
    seq!['9', digit]
}

/// `text` in the colour with the code `code`: the sequence of the colour,
/// the text, and the sequence that switches colours off. Where the text
/// switches colours off itself, the sequence of the colour follows each time.
pub open spec fn colored_text(code: Seq<char>, text: Seq<char>) -> Seq<char> {
    color_sequence(code) + joined_with(
        pieces_between(text, reset_sequence()),
        reset_sequence() + color_sequence(code),
    ) + reset_sequence()
}

/// Whether `painted` is `text` as it is or in the colour with the code
/// `code`.
pub open spec fn is_painted(code: Seq<char>, text: Seq<char>, painted: Seq<char>) -> bool {
    painted == text || painted == colored_text(code, text)
}

/// Calls `Colorize::bright_green` of the `colored` crate and writes the
/// result, which is the text as it is where the crate finds colours
/// switched off, and the text in bright green where it finds them on.
#[verifier::external_body]
pub(crate) fn b_green(value: &str) -> (painted: String)
    ensures
        is_painted(bright('2'), value@, painted@),
{
    value.bright_green().to_string()
}

/// Calls `Colorize::bright_blue` of the `colored` crate and writes the
/// result, which is the text as it is where the crate finds colours
/// switched off, and the text in bright blue where it finds them on.
#[verifier::external_body]
pub(crate) fn b_blue(value: &str) -> (painted: String)
    ensures
        is_painted(bright('4'), value@, painted@),
{
    value.bright_blue().to_string()
}

/// Calls `Colorize::bright_magenta` of the `colored` crate and writes the
/// result, which is the text as it is where the crate finds colours
/// switched off, and the text in bright magenta where it finds them on.
#[verifier::external_body]
pub(crate) fn b_magenta(value: &str) -> (painted: String)
    ensures
        is_painted(bright('5'), value@, painted@),
{
    value.bright_magenta().to_string()
}

/// Calls `Colorize::bright_cyan` of the `colored` crate and writes the
/// result, which is the text as it is where the crate finds colours
/// switched off, and the text in bright cyan where it finds them on.
#[verifier::external_body]
pub(crate) fn b_cyan(value: &str) -> (painted: String)
    ensures
        is_painted(bright('6'), value@, painted@),
{
    value.bright_cyan().to_string()
}

/// Calls `Colorize::bright_white` of the `colored` crate and writes the
/// result, which is the text as it is where the crate finds colours
/// switched off, and the text in bright white where it finds them on.
#[verifier::external_body]
pub(crate) fn b_white(value: &str) -> (painted: String)
    ensures
        is_painted(bright('7'), value@, painted@),
{
    value.bright_white().to_string()
}

/// The colours of the highlights.
#[derive(Clone, Copy, Debug, PartialEq, Eq)]
pub enum Tint {
    /// Bright green.
    Green,
    /// Bright blue.
    Blue,
    /// Bright magenta.
    Magenta,
    /// Bright cyan.
    Cyan,
    /// Bright white.
    White,
}

impl Tint {
    /// The code of the colour.
    pub open spec fn code(self) -> Seq<char> {
        match self {
            Tint::Green => bright('2'),
            Tint::Blue => bright('4'),
            Tint::Magenta => bright('5'),
            Tint::Cyan => bright('6'),
            Tint::White => bright('7'),
        }
    }
}

/// Colours `value`: the result is `value` as it is, or in the colour of
/// `tint`.
pub fn paint(tint: Tint, value: &str) -> (painted: String)
    ensures
        is_painted(tint.code(), value@, painted@),
{
    match tint {
        Tint::Green => b_green(value),
        Tint::Blue => b_blue(value),
        Tint::Magenta => b_magenta(value),
        Tint::Cyan => b_cyan(value),
        Tint::White => b_white(value),
    }
}

/// The text between two ticks, where `value` starts with a tick and goes on
/// to end with another.
pub open spec fn unticked(value: Seq<char>) -> Option<Seq<char>> {
    match after_prefix(value, seq!['`']) {
        Some(rest) => before_suffix(rest, seq!['`']),
        None => None,
    }
}

/// Takes the ticks off a text that stands between two ticks, and says
/// whether it did; another text comes back as it is.
pub fn untick(value: &str) -> (r: (bool, &str))
    ensures
        r.0 == unticked(value@) is Some,
        r.1@ == (match unticked(value@) {
            Some(inner) => inner,
            None => value@,
        }),
{
    proof {
        reveal_strlit("`");
        assert("`"@ =~= seq!['`']);
    }
    match strip_prefix(value, "`") {
        Some(rest) => match strip_suffix(rest, "`") {
            Some(inner) => (true, inner),
            None => (false, value),
        },
        None => (false, value),
    }
}

/// Puts `inner` between two copies of `tick`.
pub fn retick_with(inner: &str, tick: &str) -> (r: String)
    ensures
        r@ == tick@ + inner@ + tick@,
{
    let mut r = tick.to_owned();
    r.append(inner);
    r.append(tick);
    r
}

/// Whether `r` is `inner` between two ticks, both as they are or both in
/// bright white.
pub open spec fn is_reticked(inner: Seq<char>, r: Seq<char>) -> bool {
    let tick = seq!['`'];
    let white = colored_text(bright('7'), tick);
    r == tick + inner + tick || r == white + inner + white
}

/// Puts `inner` between two ticks, each coloured bright white.
pub fn retick(inner: &str) -> (r: String)
    ensures
        is_reticked(inner@, r@),
{
    proof {
        reveal_strlit("`");
        assert("`"@ =~= seq!['`']);
    }
    let tick = b_white("`");
    retick_with(inner, tick.as_str())
}

/// What is coloured of `input`: its trimmed text, without its ticks where
/// it stands between two.
pub open spec fn highlighted_part(input: Seq<char>) -> Seq<char> {
    match unticked(trimmed(input)) {
        Some(inner) => inner,
        None => trimmed(input),
    }
}

/// Whether `r` is the coloured text `body` of `input`, between two ticks
/// where the trimmed `input` stands between two.
pub open spec fn is_put_back(input: Seq<char>, body: Seq<char>, r: Seq<char>) -> bool {
    if unticked(trimmed(input)) is Some {
        is_reticked(body, r)
    } else {
        r == body
    }
}

/// Whether `r` is `input` highlighted in the colour with the code `code`:
/// what is coloured of it, as it is or in that colour, with its ticks put
/// back.
pub open spec fn is_highlighted(code: Seq<char>, input: Seq<char>, r: Seq<char>) -> bool {
    let part = highlighted_part(input);
    is_put_back(input, part, r) || is_put_back(input, colored_text(code, part), r)
}

/// Trims `input`, takes its ticks off, colours what is left and puts the
/// ticks back where there were any.
pub fn common_highlight(input: &str, tint: Tint) -> (r: String)
    ensures
        is_highlighted(tint.code(), input@, r@),
{
    let (ticks, item) = untick(trim(input));
    let item = paint(tint, item);
    if ticks {
        retick(item.as_str())
    } else {
        item
    }
}

/// What a piece of a type is, by which it is coloured.
#[derive(Clone, Copy, Debug, PartialEq, Eq)]
pub enum TypePiece {
    /// The type that is left open: `_`.
    Any,
    /// The lifetime `'a`.
    Lifetime,
    /// One of `&`, `<>`, `<` and `>`.
    Element,
    /// Anything else: a name.
    Name,
}

/// What the piece `chunk` of a type is, once it is trimmed.
pub open spec fn type_piece_of(chunk: Seq<char>) -> TypePiece {
    let t = trimmed(chunk);
    if t == seq!['_'] {
        TypePiece::Any
    } else if t == seq!['\'', 'a'] {
        TypePiece::Lifetime
    } else if t == seq!['&'] || t == seq!['<', '>'] || t == seq!['<'] || t == seq!['>'] {
        TypePiece::Element
    } else {
        TypePiece::Name
    }
}

/// Tells what the piece `chunk` of a type is.
pub fn type_piece(chunk: &str) -> (piece: TypePiece)
    ensures
        piece == type_piece_of(chunk@),
{
    proof {
        reveal_strlit("_");
        reveal_strlit("'a");
        reveal_strlit("&");
        reveal_strlit("<>");
        reveal_strlit("<");
        reveal_strlit(">");
        assert("_"@ =~= seq!['_']);
        assert("'a"@ =~= seq!['\'', 'a']);
        assert("&"@ =~= seq!['&']);
        assert("<>"@ =~= seq!['<', '>']);
        assert("<"@ =~= seq!['<']);
        assert(">"@ =~= seq!['>']);
    }
    let t = trim(chunk);
    if same_text(t, "_") {
        TypePiece::Any
    } else if same_text(t, "'a") {
        TypePiece::Lifetime
    } else if same_text(t, "&") || same_text(t, "<>") || same_text(t, "<") || same_text(t, ">") {
        TypePiece::Element
    } else {
        TypePiece::Name
    }
}

/// The pieces that a type is cut at, in the order in which they are looked
/// for: `&`, `'a`, `<>`, `<`, `>` and `_`.
pub open spec fn type_elements() -> Seq<Seq<char>> {
    seq![seq!['&'], seq!['\'', 'a'], seq!['<', '>'], seq!['<'], seq!['>'], seq!['_']]
}

/// Cuts a type into its elements and the names between them.
pub fn type_chunks(item: &str) -> (chunks: Vec<&str>)
    ensures
        slice_views(chunks@) == chunks_of(item@, type_elements()),
{
    proof {
        reveal_strlit("_");
        reveal_strlit("'a");
        reveal_strlit("&");
        reveal_strlit("<>");
        reveal_strlit("<");
        reveal_strlit(">");
    }
    let elements: [&str; 6] = ["&", "'a", "<>", "<", ">", "_"];
    proof {
        assert(slice_views(elements@) =~= type_elements()) by {
            assert(elements@[0]@ =~= seq!['&']);
            assert(elements@[1]@ =~= seq!['\'', 'a']);
            assert(elements@[2]@ =~= seq!['<', '>']);
            assert(elements@[3]@ =~= seq!['<']);
            assert(elements@[4]@ =~= seq!['>']);
            assert(elements@[5]@ =~= seq!['_']);
        }
    }
    item.chunk_by_any(elements.as_slice())
}

/// Whether each text of `painted` is the text of `texts` at its place, as
/// it is or in the colour with the code `code`.
pub open spec fn each_painted(
    code: Seq<char>,
    texts: Seq<Seq<char>>,
    painted: Seq<Seq<char>>,
) -> bool {
    painted.len() == texts.len() && forall|i: int|
        0 <= i < texts.len() ==> is_painted(code, texts[i], #[trigger] painted[i])
}

/// Whether `r` is the path of modules `input`, highlighted: each module of
/// what is coloured of it as it is or in bright magenta, joined by the
/// separator as it is or in bright white, with the ticks put back.
pub open spec fn is_module_highlight(input: Seq<char>, r: Seq<char>) -> bool {
    exists|painted: Seq<Seq<char>>, sep: Seq<char>|
        {
            &&& each_painted(
                bright('5'),
                pieces_between(highlighted_part(input), MODULE_SEPARATOR@),
                painted,
            )
            &&& is_painted(bright('7'), MODULE_SEPARATOR@, sep)
            &&& is_put_back(input, #[trigger] joined_with(painted, sep), r)
        }
}

/// Whether `painted` is the lifetime `'a`, coloured: the tick as it is or
/// in bright white, then the letter as it is or in bright cyan.
pub open spec fn is_lifetime_painted(painted: Seq<char>) -> bool {
    let tick = seq!['\''];
    let letter = seq!['a'];
    let white = colored_text(bright('7'), tick);
    let cyan = colored_text(bright('6'), letter);
    painted == tick + letter || painted == tick + cyan || painted == white + letter || painted
        == white + cyan
}

/// Whether `painted` is the piece `chunk` of a type, coloured by what it
/// is: `_` bright magenta, the lifetime in its two colours, another element
/// bright white and a name bright green, each trimmed, and each as it is or
/// in its colour.
pub open spec fn is_type_piece_painted(chunk: Seq<char>, painted: Seq<char>) -> bool {
    match type_piece_of(chunk) {
        TypePiece::Any => is_painted(bright('5'), seq!['_'], painted),
        TypePiece::Lifetime => is_lifetime_painted(painted),
        TypePiece::Element => is_painted(bright('7'), trimmed(chunk), painted),
        TypePiece::Name => is_painted(bright('2'), trimmed(chunk), painted),
    }
}

/// Whether each text of `painted` is the piece of `chunks` at its place,
/// coloured by what it is.
pub open spec fn each_type_piece_painted(chunks: Seq<Seq<char>>, painted: Seq<Seq<char>>) -> bool {
    painted.len() == chunks.len() && forall|i: int|
        0 <= i < chunks.len() ==> is_type_piece_painted(chunks[i], #[trigger] painted[i])
}

/// Whether `r` is the type `input`, highlighted: the pieces that what is
/// coloured of it is cut into, each coloured by what it is, one after the
/// other, with the ticks put back.
pub open spec fn is_type_highlight(input: Seq<char>, r: Seq<char>) -> bool {
    exists|painted: Seq<Seq<char>>|
        {
            &&& each_type_piece_painted(
                chunks_of(highlighted_part(input), type_elements()),
                painted,
            )
            &&& is_put_back(input, #[trigger] glued(painted), r)
        }
}

/// Colours for the kinds of things that messages name. A text between two
/// ticks is coloured between its ticks, which are coloured bright white.
pub trait ColorHighlights {
    /// The text.
    spec fn text(&self) -> Seq<char>;

    /// Colours a path of modules: each module bright magenta, the
    /// separators bright white.
    fn module_highlight(&self) -> (r: String)
        ensures
            is_module_highlight(self.text(), r@),
    ;

    /// Colours a type: its names bright green, `_` bright magenta, the
    /// lifetime `'a` bright white and bright cyan, its other elements
    /// bright white.
    fn type_highlight(&self) -> (r: String)
        ensures
            is_type_highlight(self.text(), r@),
    ;

    /// Colours a command of the machine bright green.
    fn command_highlight(&self) -> (r: String)
        ensures
            is_highlighted(bright('2'), self.text(), r@),
    ;

    /// Colours a string bright cyan.
    fn string_highlight(&self) -> (r: String)
        ensures
            is_highlighted(bright('6'), self.text(), r@),
    ;

    /// Colours a parameter of the command line bright cyan.
    fn parameter_highlight(&self) -> (r: String)
        ensures
            is_highlighted(bright('6'), self.text(), r@),
    ;

    /// Colours a flag of the command line bright cyan.
    fn flag_highlight(&self) -> (r: String)
        ensures
            is_highlighted(bright('6'), self.text(), r@),
    ;

    /// Colours the bullet of a list bright blue.
    fn bullet_point_highlight(&self) -> (r: String)
        ensures
            is_highlighted(bright('4'), self.text(), r@),
    ;
}

impl ColorHighlights for str {
    open spec fn text(&self) -> Seq<char> {
        self@
    }

    fn module_highlight(&self) -> (r: String) {
        proof {
            reveal_strlit("::");
        }
        let (ticks, item) = untick(trim(self));
        let modules = split_by(item, MODULE_SEPARATOR);
        let mut painted: Vec<String> = Vec::new();
        let mut i: usize = 0;
        while i < modules.len()
            invariant
                i <= modules.len(),
                painted.len() == i,
                forall|k: int|
                    0 <= k < i ==> is_painted(
                        bright('5'),
                        modules@[k]@,
                        (#[trigger] painted@[k])@,
                    ),
            decreases modules.len() - i,
        {
            painted.push(b_magenta(modules[i]));
            i += 1;
        }
        let sep = b_white(MODULE_SEPARATOR);
        let mod_str = join(&painted, sep.as_str());
        let r = if ticks {
            retick(mod_str.as_str())
        } else {
            mod_str
        };
        proof {
            let texts = pieces_between(highlighted_part(self@), MODULE_SEPARATOR@);
            assert(texts == slice_views(modules@));
            assert(each_painted(bright('5'), texts, views(painted@)));
            assert(is_put_back(self@, joined_with(views(painted@), sep@), r@));
        }
        r
    }

    fn type_highlight(&self) -> (r: String) {
        let (ticks, item) = untick(trim(self));
        let chunks = type_chunks(item);
        let mut items = String::new();
        let ghost mut painted: Seq<Seq<char>> = Seq::empty();
        let mut i: usize = 0;
        proof {
            assert(glued(painted) =~= items@);
        }
        while i < chunks.len()
            invariant
                i <= chunks.len(),
                painted.len() == i,
                items@ == glued(painted),
                forall|k: int|
                    0 <= k < i ==> is_type_piece_painted(chunks@[k]@, #[trigger] painted[k]),
            decreases chunks.len() - i,
        {
            let ghost before = items@;
            let ghost done = painted;
            let ghost mut piece: Seq<char> = Seq::empty();
            proof {
                reveal_strlit("_");
                reveal_strlit("'");
                reveal_strlit("a");
                assert("_"@ =~= seq!['_']);
                assert("'"@ =~= seq!['\'']);
                assert("a"@ =~= seq!['a']);
            }
            let x = trim(chunks[i]);
            match type_piece(chunks[i]) {
                TypePiece::Any => {
                    let any = b_magenta("_");
                    items.append(any.as_str());
                    proof {
                        piece = any@;
                    }
                },
                TypePiece::Lifetime => {
                    let tick = b_white("'");
                    let letter = b_cyan("a");
                    items.append(tick.as_str());
                    items.append(letter.as_str());
                    proof {
                        piece = tick@ + letter@;
                        assert(items@ =~= before + piece);
                    }
                },
                TypePiece::Element => {
                    let element = b_white(x);
                    items.append(element.as_str());
                    proof {
                        piece = element@;
                    }
                },
                TypePiece::Name => {
                    let name = b_green(x);
                    items.append(name.as_str());
                    proof {
                        piece = name@;
                    }
                },
            }
            proof {
                assert(items@ == before + piece);
                assert(is_type_piece_painted(chunks@[i as int]@, piece));
                lemma_glued_push(done, piece);
                painted = done.push(piece);
            }
            i += 1;
        }
        let r = if ticks {
            retick(items.as_str())
        } else {
            items
        };
        proof {
            let texts = chunks_of(highlighted_part(self@), type_elements());
            assert(texts == slice_views(chunks@));
            assert(each_type_piece_painted(texts, painted));
            assert(is_put_back(self@, glued(painted), r@));
        }
        r
    }

    fn command_highlight(&self) -> (r: String) {
        common_highlight(self, Tint::Green)
    }

    fn string_highlight(&self) -> (r: String) {
        common_highlight(self, Tint::Cyan)
    }

    fn parameter_highlight(&self) -> (r: String) {
        common_highlight(self, Tint::Cyan)
    }

    fn flag_highlight(&self) -> (r: String) {
        common_highlight(self, Tint::Cyan)
    }

    fn bullet_point_highlight(&self) -> (r: String) {
        common_highlight(self, Tint::Blue)
    }
}

} // verus!
