//! Placement of the board, its labels, chessmen and overlays, in window
//! pixels. The functions say where things go and in which shade; painting
//! them is the caller's job.

use vstd::prelude::*;
use crate::rules::{Colour, GameOverReason, Piece, PromotionPiece};

verus! {

/// Side length of one board square.
pub const SQUARE_SIZE: u32 = 90;

/// The axis along which a row of labels runs.
#[derive(Clone, Copy, Debug, PartialEq, Eq, Structural)]
pub enum Direction {
    Vertical,
    Horizontal,
}

/// The two shades of the board: white, and the green of the dark squares.
#[derive(Clone, Copy, Debug, PartialEq, Eq, Structural)]
pub enum Shade {
    Light,
    Dark,
}

impl Shade {
    /// Red, green and blue of the shade.
    pub fn rgb(self) -> (rgb: (u8, u8, u8))
        ensures
            rgb == match self {
                Shade::Light => (255u8, 255u8, 255u8),
                Shade::Dark => (118u8, 150u8, 86u8),
            },
    {
        match self {
            Shade::Light => (255, 255, 255),
            Shade::Dark => (118, 150, 86),
        }
    }
}

/// The shade that alternates along a row: light on even counts.
pub open spec fn shade_of(count: int) -> Shade {
    if count % 2 == 0 {
        Shade::Light
    } else {
        Shade::Dark
    }
}

/// A piece of text and where it goes.
#[derive(Clone, Copy, Debug, PartialEq, Eq)]
pub struct Label<'a> {
    pub text: &'a str,
    pub x: u32,
    pub y: u32,
    pub shade: Shade,
}

/// Where the `i`-th label of a row goes: rows along the bottom run to the
/// right, rows along the left edge run upwards.
pub open spec fn label_pos(i: int, direction: Direction) -> (int, int) {
    match direction {
        Direction::Horizontal => (i * 90 + 70, 690),
        Direction::Vertical => (2, 632 - i * 90),
    }
}

/// The eight labels of one row, in order, each with its place and with
/// shades alternating from light.
pub fn draw_repeated_elements<'a>(elements: [&'a str; 8], direction: Direction) -> (labels: Vec<
    Label<'a>,
>)
    ensures
        labels.len() == 8,
        forall|i: int|
            0 <= i < 8 ==> {
                &&& (#[trigger] labels[i]).text == elements[i]
                &&& labels[i].x == label_pos(i, direction).0
                &&& labels[i].y == label_pos(i, direction).1
                &&& labels[i].shade == shade_of(i)
            },
{
    let mut labels: Vec<Label<'a>> = Vec::new();
    let mut i: u32 = 0;
    while i < 8
        invariant
            i <= 8,
            labels.len() == i,
            forall|k: int|
                0 <= k < i ==> {
                    &&& (#[trigger] labels[k]).text == elements[k]
                    &&& labels[k].x == label_pos(k, direction).0
                    &&& labels[k].y == label_pos(k, direction).1
                    &&& labels[k].shade == shade_of(k)
                },
        decreases 8 - i,
    {
        let shade = if i % 2 == 0 {
            Shade::Light
        } else {
            Shade::Dark
        };
        let (x, y) = match direction {
            Direction::Horizontal => (i * SQUARE_SIZE + 70, 690),
            Direction::Vertical => (2, 632 - i * SQUARE_SIZE),
        };
        labels.push(Label { text: elements[i as usize], x, y, shade });
        i += 1;
    }
    labels
}

/// Centre of the square with the given index, as `(x, y)`.
pub open spec fn index_pos(index: int) -> (int, int) {
    ((index % 8) * 90 + 45, (index / 8) * 90 + 45)
}

/// Centre of the square with the given index, as `(x, y)`: squares are
/// numbered row by row from the top left, eight to a row.
pub fn get_index_pos(index: u32) -> (pos: (u32, u32))
    requires
        index_pos(index as int).1 <= u32::MAX,
    ensures
        pos.0 == index_pos(index as int).0,
        pos.1 == index_pos(index as int).1,
{
    ((index % 8) * SQUARE_SIZE + 45, index / 8 * SQUARE_SIZE + 45)
}

/// The labels round the board: the files `a` to `h` along the bottom, then
/// the ranks `8` to `1` up the left edge.
pub fn draw_board_indexing() -> (labels: Vec<Label<'static>>)
    ensures
        labels.len() == 16,
        forall|i: int|
            0 <= i < 8 ==> {
                &&& (#[trigger] labels[i]).text == file_names()[i]
                &&& labels[i].x == label_pos(i, Direction::Horizontal).0
                &&& labels[i].y == label_pos(i, Direction::Horizontal).1
                &&& labels[i].shade == shade_of(i)
            },
        forall|i: int|
            0 <= i < 8 ==> {
                &&& (#[trigger] labels[8 + i]).text == rank_names()[i]
                &&& labels[8 + i].x == label_pos(i, Direction::Vertical).0
                &&& labels[8 + i].y == label_pos(i, Direction::Vertical).1
                &&& labels[8 + i].shade == shade_of(i)
            },
{
    let mut labels = draw_repeated_elements(
        ["a", "b", "c", "d", "e", "f", "g", "h"],
        Direction::Horizontal,
    );
    let mut ranks = draw_repeated_elements(
        ["8", "7", "6", "5", "4", "3", "2", "1"],
        Direction::Vertical,
    );
    let ghost files = labels@;
    let ghost up = ranks@;
    labels.append(&mut ranks);
    assert forall|i: int| 0 <= i < 8 implies (#[trigger] labels[i]) == files[i] by {}
    assert forall|i: int| 0 <= i < 8 implies (#[trigger] labels[8 + i]) == up[i] by {}
    labels
}

/// The names of the files, left to right.
pub open spec fn file_names() -> Seq<&'static str> {
    seq!["a", "b", "c", "d", "e", "f", "g", "h"]
}

/// The names of the ranks, in the order in which they are laid out.
pub open spec fn rank_names() -> Seq<&'static str> {
    seq!["8", "7", "6", "5", "4", "3", "2", "1"]
}

/// A chessman and where its picture goes.
#[derive(Clone, Copy, Debug, PartialEq, Eq, Structural)]
pub struct Sprite {
    pub piece: Piece,
    pub x: u32,
    pub y: u32,
}

/// Top left corner of the picture on the square with the given index.
pub open spec fn piece_pos(index: int) -> (int, int) {
    ((index % 8) * 90 + 13, (index / 8) * 90 + 13)
}

/// The pictures for the first `count` squares of the board, in the order
/// of the squares.
pub open spec fn sprites_of(board: Seq<Option<Piece>>, count: int) -> Seq<Sprite>
    decreases count,
{
    if count <= 0 {
        Seq::empty()
    } else {
        let before = sprites_of(board, count - 1);
        match board[count - 1] {
            Some(piece) => before.push(
                Sprite {
                    piece,
                    x: piece_pos(count - 1).0 as u32,
                    y: piece_pos(count - 1).1 as u32,
                },
            ),
            None => before,
        }
    }
}

/// One picture for every occupied square, row by row from the top left.
pub fn draw_board_pieces(board: [Option<Piece>; 64]) -> (sprites: Vec<Sprite>)
    ensures
        sprites@ == sprites_of(board@, 64),
{
    let mut sprites: Vec<Sprite> = Vec::new();
    let mut i: u32 = 0;
    while i < 8
        invariant
            i <= 8,
            sprites@ == sprites_of(board@, i * 8),
        decreases 8 - i,
    {
        let mut j: u32 = 0;
        while j < 8
            invariant
                i < 8,
                j <= 8,
                sprites@ == sprites_of(board@, i * 8 + j),
            decreases 8 - j,
        {
            let index = (i * 8 + j) as usize;
            match board[index] {
                Some(piece) => {
                    sprites.push(Sprite { piece, x: j * SQUARE_SIZE + 13, y: i * SQUARE_SIZE + 13 });
                },
                None => {},
            }
            j += 1;
        }
        i += 1;
    }
    sprites
}

/// A square of the board and its shade.
#[derive(Clone, Copy, Debug, PartialEq, Eq, Structural)]
pub struct Tile {
    pub x: u32,
    pub y: u32,
    pub shade: Shade,
}

/// The square with the given index: its top left corner, and light where
/// row and column add up to an even number.
pub open spec fn tile_at(index: int) -> Tile {
    Tile {
        x: ((index % 8) * 90) as u32,
        y: ((index / 8) * 90) as u32,
        shade: shade_of(index / 8 + index % 8),
    }
}

/// The sixty-four squares of the board, row by row from the top left.
pub fn draw_board_rectangles() -> (tiles: Vec<Tile>)
    ensures
        tiles.len() == 64,
        forall|k: int| 0 <= k < 64 ==> #[trigger] tiles[k] == tile_at(k),
{
    let mut tiles: Vec<Tile> = Vec::new();
    let mut i: u32 = 0;
    while i < 8
        invariant
            i <= 8,
            tiles.len() == i * 8,
            forall|k: int| 0 <= k < i * 8 ==> #[trigger] tiles[k] == tile_at(k),
        decreases 8 - i,
    {
        let mut j: u32 = 0;
        while j < 8
            invariant
                i < 8,
                j <= 8,
                tiles.len() == i * 8 + j,
                forall|k: int| 0 <= k < i * 8 + j ==> #[trigger] tiles[k] == tile_at(k),
            decreases 8 - j,
        {
            let shade = if (i + j) % 2 == 0 {
                Shade::Light
            } else {
                Shade::Dark
            };
            tiles.push(Tile { x: j * SQUARE_SIZE, y: i * SQUARE_SIZE, shade });
            j += 1;
        }
        i += 1;
    }
    tiles
}

/// The centres of the marks on the squares with the given indices, in the
/// same order.
pub fn draw_highlighted_squares(to_draw: &Vec<u32>) -> (marks: Vec<(u32, u32)>)
    requires
        forall|k: int| 0 <= k < to_draw.len() ==> index_pos(#[trigger] to_draw[k] as int).1 <= u32::MAX,
    ensures
        marks.len() == to_draw.len(),
        forall|k: int|
            0 <= k < to_draw.len() ==> {
                &&& (#[trigger] marks[k]).0 == index_pos(to_draw[k] as int).0
                &&& marks[k].1 == index_pos(to_draw[k] as int).1
            },
{
    let mut marks: Vec<(u32, u32)> = Vec::new();
    let mut k: usize = 0;
    while k < to_draw.len()
        invariant
            k <= to_draw.len(),
            marks.len() == k,
            forall|n: int|
                0 <= n < to_draw.len() ==> index_pos(#[trigger] to_draw[n] as int).1 <= u32::MAX,
            forall|n: int|
                0 <= n < k ==> {
                    &&& (#[trigger] marks[n]).0 == index_pos(to_draw[n] as int).0
                    &&& marks[n].1 == index_pos(to_draw[n] as int).1
                },
        decreases to_draw.len() - k,
    {
        marks.push(get_index_pos(to_draw[k]));
        k += 1;
    }
    marks
}

/// The words on the banner of a finished game. After a checkmate `color`
/// is the side named as the winner.
pub fn draw_game_over_window(game_over_reason: GameOverReason, color: Colour) -> (text: &'static str)
    ensures
        text@ == match game_over_reason {
            GameOverReason::Checkmate => match color {
                Colour::White => "White won by checkmate!"@,
                Colour::Black => "Black won by checkmate!"@,
            },
            GameOverReason::FivefoldRepetitionRule => "Draw by five fold repetition"@,
            GameOverReason::SeventyFiveMoveRule => "Draw by seventy five move rule"@,
            GameOverReason::Stalemate => "Drawby stale mate"@,
        },
{
    match game_over_reason {
        GameOverReason::Checkmate => {
            match color {
                Colour::White => "White won by checkmate!",
                Colour::Black => "Black won by checkmate!",
            }
        },
        GameOverReason::FivefoldRepetitionRule => "Draw by five fold repetition",
        GameOverReason::SeventyFiveMoveRule => "Draw by seventy five move rule",
        GameOverReason::Stalemate => "Drawby stale mate",
    }
}

/// One picture of the promotion panel and the kind that a click on it
/// chooses.
#[derive(Clone, Copy, Debug, PartialEq, Eq, Structural)]
pub struct PromotionSlot {
    pub choice: PromotionPiece,
    pub sprite: Sprite,
}

/// The four kinds on offer in the promotion panel, left to right.
pub open spec fn promotion_order() -> Seq<PromotionPiece> {
    seq![
        PromotionPiece::Queen,
        PromotionPiece::Knight,
        PromotionPiece::Rook,
        PromotionPiece::Bishop,
    ]
}

/// The `k`-th slot of the promotion panel for the given colour: the
/// picture of the kind in that colour, sixty pixels to the right of the
/// one before.
pub open spec fn promotion_slot(k: int, color: Colour) -> PromotionSlot {
    PromotionSlot {
        choice: promotion_order()[k],
        sprite: Sprite {
            piece: Piece { piece_type: promotion_order()[k].spec_piece_type(), colour: color },
            x: (255 + 60 * k) as u32,
            y: 295,
        },
    }
}

/// The four slots of the promotion panel: queen, knight, rook and bishop
/// of the given colour, left to right.
pub fn draw_promotion_selection_window(color: Colour) -> (slots: Vec<PromotionSlot>)
    ensures
        slots.len() == 4,
        forall|k: int| 0 <= k < 4 ==> #[trigger] slots[k] == promotion_slot(k, color),
{
    let choices = [
        PromotionPiece::Queen,
        PromotionPiece::Knight,
        PromotionPiece::Rook,
        PromotionPiece::Bishop,
    ];
    let mut slots: Vec<PromotionSlot> = Vec::new();
    let mut k: u32 = 0;
    while k < 4
        invariant
            k <= 4,
            slots.len() == k,
            choices@ == promotion_order(),
            forall|n: int| 0 <= n < k ==> #[trigger] slots[n] == promotion_slot(n, color),
        decreases 4 - k,
    {
        let choice = choices[k as usize];
        slots.push(
            PromotionSlot {
                choice,
                sprite: Sprite {
                    piece: Piece { piece_type: choice.piece_type(), colour: color },
                    x: 255 + 60 * k,
                    y: 295,
                },
            },
        );
        k += 1;
    }
    slots
}

} // verus!
