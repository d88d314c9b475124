//! The play area: the board, the player's position and the popups that
//! announce what the player found.
pub mod arena;
pub mod popups;

use vstd::prelude::*;
use slab::Slab;
use crate::registry::{
    REGISTRY_LIMIT, registry_contains, registry_insert, registry_len, registry_new,
    registry_remove, registry_vacant_key, slab_keys, slab_next_key, slab_slot_count,
};
use arena::{Arena, SYMBOL_COUNT, arena_symbol, arena_weights, is_arena_symbol};

verus! {

/// Number of columns of the board.
pub const FIELD_X: i32 = 100;

/// Number of rows of the board.
pub const FIELD_Y: i32 = 50;

/// Number of cells of the board.
pub const FIELD_CELLS: usize = 5000;

/// A message to the play area.
#[derive(Debug, PartialEq, Eq)]
pub enum Msg {
    /// A key was pressed: `"KeyW"`, `"KeyS"`, `"KeyA"`, `"KeyD"` move the
    /// player; `"Edge"` reports a key pressed against the board's border.
    Move(String),
    /// The player found the given symbol: show it in a popup.
    PopUp(String),
    /// Close the popup filed under the given key.
    DestroyPopUp(usize),
}

/// What a message carries, as mathematical values.
pub enum MsgView {
    Move(Seq<char>),
    PopUp(Seq<char>),
    DestroyPopUp(usize),
}

impl View for Msg {
    type V = MsgView;

    open spec fn view(&self) -> MsgView {
        match self {
            Msg::Move(code) => MsgView::Move(code@),
            Msg::PopUp(thing) => MsgView::PopUp(thing@),
            Msg::DestroyPopUp(key) => MsgView::DestroyPopUp(*key),
        }
    }
}

/// A one-cell step of the player.
#[derive(Clone, Copy, Debug, PartialEq, Eq, Structural)]
pub enum Direction {
    Up,
    Down,
    Left,
    Right,
}

/// What the play area asks its surroundings to do after a message, in order.
#[derive(Debug, PartialEq, Eq)]
pub enum Effect {
    /// Send `Msg::DestroyPopUp` with this key to the play area.
    SendDestroyPopUp(usize),
    /// The player stepped one cell in this direction.
    Stepped(Direction),
    /// Scroll the board so that the player's cell stays visible.
    KeepPlayerInView,
    /// Send `Msg::PopUp` with this symbol to the play area.
    SendPopUp(String),
    /// Open a popup showing the symbol, filed under the key; closing it
    /// sends `Msg::DestroyPopUp` with that key.
    ShowPopUp(usize, String),
    /// Close the popup filed under the key and give the input focus back.
    ClosePopUp(usize),
}

/// An effect as mathematical values.
pub enum EffectView {
    SendDestroyPopUp(usize),
    Stepped(Direction),
    KeepPlayerInView,
    SendPopUp(Seq<char>),
    ShowPopUp(usize, Seq<char>),
    ClosePopUp(usize),
}

impl View for Effect {
    type V = EffectView;

    open spec fn view(&self) -> EffectView {
        match self {
            Effect::SendDestroyPopUp(k) => EffectView::SendDestroyPopUp(*k),
            Effect::Stepped(d) => EffectView::Stepped(*d),
            Effect::KeepPlayerInView => EffectView::KeepPlayerInView,
            Effect::SendPopUp(s) => EffectView::SendPopUp(s@),
            Effect::ShowPopUp(k, s) => EffectView::ShowPopUp(*k, s@),
            Effect::ClosePopUp(k) => EffectView::ClosePopUp(*k),
        }
    }
}

/// The views of a list of effects.
pub open spec fn effects_view(effects: Seq<Effect>) -> Seq<EffectView> {
    effects.map_values(|e: Effect| e@)
}

/// The state of a play area, as mathematical values.
pub struct PlayAreaModel {
    /// Column of the player.
    pub x: int,
    /// Row of the player.
    pub y: int,
    /// Horizontal scroll offset of the board, in pixels.
    pub lox: int,
    /// Vertical scroll offset of the board, in pixels.
    pub loy: int,
    /// The board's cells, row after row.
    pub arena: Seq<Seq<char>>,
    /// Keys of the popups that are open.
    pub popups: Set<usize>,
    /// The key the next popup will be filed under.
    pub next_popup_key: usize,
    /// Slots the popup registry has handed out so far, open or freed.
    pub popup_slots: usize,
    /// Whether a popup is shown.
    pub popped: bool,
    /// Key of the popup opened last.
    pub last_popup_key: usize,
    pub is_hover: bool,
    pub hover: Seq<char>,
}

/// Whether a position lies on the board.
pub open spec fn in_field(x: int, y: int) -> bool {
    0 <= x < FIELD_X && 0 <= y < FIELD_Y
}

/// Index of the cell at a position in the flat list of cells.
pub open spec fn cell_index(x: int, y: int) -> int {
    x + FIELD_X * y
}

/// Whether an integer fits in `i32`.
pub open spec fn fits_i32(v: int) -> bool {
    i32::MIN <= v <= i32::MAX
}

/// The step that a key code makes the player take, if any.
pub open spec fn step_of(code: Seq<char>) -> Option<Direction> {
    if code == "KeyW"@ {
        Some(Direction::Up)
    } else if code == "KeyS"@ {
        Some(Direction::Down)
    } else if code == "KeyA"@ {
        Some(Direction::Left)
    } else if code == "KeyD"@ {
        Some(Direction::Right)
    } else {
        None
    }
}

impl PlayAreaModel {
    /// What every play area satisfies: a full board, finitely many popups,
    /// the key for the next popup is free, and a shown popup is always one
    /// that is open.
    pub open spec fn wf(self) -> bool {
        &&& self.arena.len() == FIELD_CELLS
        &&& self.popups.finite()
        &&& !self.popups.contains(self.next_popup_key)
        &&& self.popped ==> self.popups.contains(self.last_popup_key)
    }

    /// The state after the key `code` is handled: one step in its direction,
    /// with the scroll offset following by one cell's size in pixels.
    pub open spec fn moved(self, code: Seq<char>, cell_w: int, cell_h: int) -> PlayAreaModel {
        match step_of(code) {
            Some(Direction::Up) => PlayAreaModel { y: self.y - 1, loy: self.loy - cell_h, ..self },
            Some(Direction::Down) => PlayAreaModel { y: self.y + 1, loy: self.loy + cell_h, ..self },
            Some(Direction::Left) => PlayAreaModel { x: self.x - 1, lox: self.lox - cell_w, ..self },
            Some(Direction::Right) => PlayAreaModel { x: self.x + 1, lox: self.lox + cell_w, ..self },
            None => self,
        }
    }

    /// The cell the player stands on, when on the board.
    pub open spec fn player_cell(self) -> Option<int> {
        if in_field(self.x, self.y) {
            Some(cell_index(self.x, self.y))
        } else {
            None
        }
    }

    /// The effect that closes the shown popup, if one is shown.
    pub open spec fn close_shown_effects(self) -> Seq<EffectView> {
        if self.popped {
            seq![EffectView::SendDestroyPopUp(self.last_popup_key)]
        } else {
            seq![]
        }
    }

    /// Inputs on which handling a message stays within the machine's limits:
    /// a move stays on the cells of the board without `i32` overflow, a new
    /// popup finds room in the registry, and a closed popup is open.
    pub open spec fn accepts(self, msg: MsgView, cell_w: int, cell_h: int) -> bool {
        match msg {
            MsgView::Move(code) => {
                let n = self.moved(code, cell_w, cell_h);
                &&& fits_i32(n.x)
                &&& fits_i32(n.y)
                &&& fits_i32(n.lox)
                &&& fits_i32(n.loy)
                &&& fits_i32(FIELD_X * n.y)
                &&& 0 <= cell_index(n.x, n.y) < self.arena.len()
            },
            MsgView::PopUp(_) => self.popups.len() < REGISTRY_LIMIT,
            MsgView::DestroyPopUp(key) => self.popups.contains(key),
        }
    }

    /// The effects of handling a message, in order.
    pub open spec fn effects(self, msg: MsgView, cell_w: int, cell_h: int) -> Seq<EffectView> {
        match msg {
            MsgView::Move(code) => {
                let n = self.moved(code, cell_w, cell_h);
                let found = self.arena[cell_index(n.x, n.y)];
                let stepped = match step_of(code) {
                    Some(d) => seq![EffectView::Stepped(d)],
                    None => seq![],
                };
                let announce = if found != ".  "@ && code != "Edge"@ {
                    seq![EffectView::SendPopUp(found)]
                } else {
                    seq![]
                };
                self.close_shown_effects() + stepped + seq![EffectView::KeepPlayerInView] + announce
            },
            MsgView::PopUp(thing) => self.close_shown_effects() + seq![
                EffectView::ShowPopUp(self.next_popup_key, thing),
            ],
            MsgView::DestroyPopUp(key) => seq![EffectView::ClosePopUp(key)],
        }
    }

    /// How the state changes when a message is handled. A popup filed in a
    /// fresh slot makes the slot after it the next key; one filed in a freed
    /// slot leaves the next key to the registry's list of freed slots.
    pub open spec fn next(self, post: PlayAreaModel, msg: MsgView, cell_w: int, cell_h: int) -> bool {
        match msg {
            MsgView::Move(code) => post == self.moved(code, cell_w, cell_h),
            MsgView::PopUp(_) => {
                &&& post == PlayAreaModel {
                    popups: self.popups.insert(self.next_popup_key),
                    last_popup_key: self.next_popup_key,
                    popped: true,
                    next_popup_key: post.next_popup_key,
                    popup_slots: post.popup_slots,
                    ..self
                }
                &&& if self.next_popup_key == self.popup_slots {
                    &&& post.popup_slots == self.popup_slots + 1
                    &&& post.next_popup_key == self.next_popup_key + 1
                } else {
                    post.popup_slots == self.popup_slots
                }
            },
            MsgView::DestroyPopUp(key) => post == PlayAreaModel {
                popups: self.popups.remove(key),
                popped: false,
                next_popup_key: key,
                ..self
            },
        }
    }
}

/// The message that a key press at the given position produces: a move when
/// the key leads onto the board, `"Edge"` when the player stands on the top
/// row, the left column or off the board, and nothing otherwise.
pub open spec fn key_message(code: Seq<char>, x: int, y: int) -> Option<MsgView> {
    if (code == "KeyW"@ && y > 0) || (code == "KeyS"@ && y < FIELD_Y - 1) || (code == "KeyA"@
        && x > 0) || (code == "KeyD"@ && x < FIELD_X - 1) {
        Some(MsgView::Move(code))
    } else if y == 0 || y > FIELD_Y - 1 || x == 0 || x > FIELD_X - 1 {
        Some(MsgView::Move("Edge"@))
    } else {
        None
    }
}

/// The key codes are distinct from one another.
proof fn lemma_key_codes_distinct()
    ensures
        "KeyW"@ != "KeyS"@,
        "KeyW"@ != "KeyA"@,
        "KeyW"@ != "KeyD"@,
        "KeyS"@ != "KeyA"@,
        "KeyS"@ != "KeyD"@,
        "KeyA"@ != "KeyD"@,
        "Edge"@ != "KeyW"@,
        "Edge"@ != "KeyS"@,
        "Edge"@ != "KeyA"@,
        "Edge"@ != "KeyD"@,
{
    reveal_strlit("KeyW");
    reveal_strlit("KeyS");
    reveal_strlit("KeyA");
    reveal_strlit("KeyD");
    reveal_strlit("Edge");
    assert("KeyW"@[3] != "KeyS"@[3]);
    assert("KeyW"@[3] != "KeyA"@[3]);
    assert("KeyW"@[3] != "KeyD"@[3]);
    assert("KeyS"@[3] != "KeyA"@[3]);
    assert("KeyS"@[3] != "KeyD"@[3]);
    assert("KeyA"@[3] != "KeyD"@[3]);
    assert("Edge"@[0] != "KeyW"@[0]);
    assert("Edge"@[0] != "KeyS"@[0]);
    assert("Edge"@[0] != "KeyA"@[0]);
    assert("Edge"@[0] != "KeyD"@[0]);
}

/// The player never leaves the board: from a cell of the board, the move
/// that a key press asks for leads to a cell of the board (an `"Edge"`
/// report leaves the player in place).
pub proof fn lemma_key_moves_stay_on_board(m: PlayAreaModel, code: Seq<char>, cell_w: int, cell_h: int)
    requires
        in_field(m.x, m.y),
    ensures
        key_message(code, m.x, m.y) matches Some(MsgView::Move(c)) ==> {
            let n = m.moved(c, cell_w, cell_h);
            &&& in_field(n.x, n.y)
            &&& 0 <= cell_index(n.x, n.y) < FIELD_CELLS
        },
{
    lemma_key_codes_distinct();
}

/// Where the player stands on the board and the scroll offsets leave room
/// for one more cell's worth of pixels, every move that a key press asks
/// for is one that `PlayAreaApp::update` accepts.
pub proof fn lemma_key_moves_accepted(m: PlayAreaModel, code: Seq<char>, cell_w: int, cell_h: int)
    requires
        m.wf(),
        in_field(m.x, m.y),
        fits_i32(m.lox - cell_w),
        fits_i32(m.lox + cell_w),
        fits_i32(m.loy - cell_h),
        fits_i32(m.loy + cell_h),
    ensures
        key_message(code, m.x, m.y) matches Some(msg) ==> m.accepts(msg, cell_w, cell_h),
{
    lemma_key_codes_distinct();
    lemma_key_moves_stay_on_board(m, code, cell_w, cell_h);
}

/// The player stays on the board from one key press to the next: handling
/// the message that a key press produces moves the player to a cell of the
/// board.
pub proof fn lemma_player_stays_on_board(
    m: PlayAreaModel,
    post: PlayAreaModel,
    code: Seq<char>,
    msg: MsgView,
    cell_w: int,
    cell_h: int,
)
    requires
        in_field(m.x, m.y),
        key_message(code, m.x, m.y) == Some(msg),
        m.next(post, msg, cell_w, cell_h),
    ensures
        in_field(post.x, post.y),
{
    lemma_key_moves_stay_on_board(m, code, cell_w, cell_h);
}

/// Opening a popup adds exactly one open popup, under a key that was free,
/// and leaves every other open popup open; closing one removes exactly it.
pub proof fn lemma_popup_count(m: PlayAreaModel, post: PlayAreaModel, msg: MsgView, cell_w: int, cell_h: int)
    requires
        m.wf(),
        m.accepts(msg, cell_w, cell_h),
        m.next(post, msg, cell_w, cell_h),
    ensures
        msg is PopUp ==> {
            &&& post.popups.len() == m.popups.len() + 1
            &&& !m.popups.contains(post.last_popup_key)
            &&& post.popups == m.popups.insert(post.last_popup_key)
        },
        msg is DestroyPopUp ==> post.popups.len() + 1 == m.popups.len(),
        msg is Move ==> post.popups == m.popups,
{
}

/// A shown popup is always an open one: handling any accepted message keeps
/// `popped` implying that the popup opened last is open.
pub proof fn lemma_shown_popup_stays_open(
    m: PlayAreaModel,
    post: PlayAreaModel,
    msg: MsgView,
    cell_w: int,
    cell_h: int,
)
    requires
        m.wf(),
        m.accepts(msg, cell_w, cell_h),
        m.next(post, msg, cell_w, cell_h),
    ensures
        post.popped ==> post.popups.contains(post.last_popup_key),
        post.arena.len() == FIELD_CELLS,
        post.popups.finite(),
{
}

/// The scroll offsets follow the player: with the same cell size throughout,
/// every message keeps `lox - x * cell_w` and `loy - y * cell_h` unchanged.
pub proof fn lemma_scroll_follows_player(
    m: PlayAreaModel,
    post: PlayAreaModel,
    msg: MsgView,
    cell_w: int,
    cell_h: int,
)
    requires
        m.next(post, msg, cell_w, cell_h),
    ensures
        post.lox - post.x * cell_w == m.lox - m.x * cell_w,
        post.loy - post.y * cell_h == m.loy - m.y * cell_h,
{
    assert((m.x - 1) * cell_w == m.x * cell_w - cell_w) by (nonlinear_arith);
    assert((m.x + 1) * cell_w == m.x * cell_w + cell_w) by (nonlinear_arith);
    assert((m.y - 1) * cell_h == m.y * cell_h - cell_h) by (nonlinear_arith);
    assert((m.y + 1) * cell_h == m.y * cell_h + cell_h) by (nonlinear_arith);
}

/// A key press on the board is always handled within range and keeps the
/// player on the board: when the player stands on the board and the scroll
/// offsets have one cell's worth of room, the message the key produces is
/// accepted by `update`, and the player ends on the board.
pub proof fn lemma_key_press_handled_on_board(
    m: PlayAreaModel,
    post: PlayAreaModel,
    code: Seq<char>,
    msg: MsgView,
    cell_w: int,
    cell_h: int,
)
    requires
        m.wf(),
        in_field(m.x, m.y),
        fits_i32(m.lox - cell_w),
        fits_i32(m.lox + cell_w),
        fits_i32(m.loy - cell_h),
        fits_i32(m.loy + cell_h),
        key_message(code, m.x, m.y) == Some(msg),
        m.next(post, msg, cell_w, cell_h),
    ensures
        m.accepts(msg, cell_w, cell_h),
        in_field(post.x, post.y),
{
    lemma_key_moves_accepted(m, code, cell_w, cell_h);
    lemma_player_stays_on_board(m, post, code, msg, cell_w, cell_h);
}

/// Any key handled while a popup is shown closes that popup first, whatever
/// the key: the first effect is the request to destroy the popup shown last.
/// Without a shown popup, handling a key requests no destruction at all.
pub proof fn lemma_key_closes_shown_popup(m: PlayAreaModel, code: Seq<char>, cell_w: int, cell_h: int)
    ensures
        m.popped ==> {
            let e = m.effects(MsgView::Move(code), cell_w, cell_h);
            &&& e.len() >= 2
            &&& e[0] == EffectView::SendDestroyPopUp(m.last_popup_key)
        },
        !m.popped ==> forall|i: int|
            0 <= i < m.effects(MsgView::Move(code), cell_w, cell_h).len() ==> !(
            #[trigger] m.effects(MsgView::Move(code), cell_w, cell_h)[i] is SendDestroyPopUp),
{
}

/// The four movement keys step by one cell in their own direction: W up, S
/// down, A left, D right, each leaving the other coordinate alone.
pub proof fn lemma_key_directions(m: PlayAreaModel, cell_w: int, cell_h: int)
    ensures
        m.moved("KeyW"@, cell_w, cell_h).x == m.x && m.moved("KeyW"@, cell_w, cell_h).y == m.y - 1,
        m.moved("KeyS"@, cell_w, cell_h).x == m.x && m.moved("KeyS"@, cell_w, cell_h).y == m.y + 1,
        m.moved("KeyA"@, cell_w, cell_h).x == m.x - 1 && m.moved("KeyA"@, cell_w, cell_h).y == m.y,
        m.moved("KeyD"@, cell_w, cell_h).x == m.x + 1 && m.moved("KeyD"@, cell_w, cell_h).y == m.y,
        m.moved("Edge"@, cell_w, cell_h) == m,
{
    lemma_key_codes_distinct();
}

/// Every cell of the board can be reached: from a cell of the board, a
/// movement key whose neighbouring cell in its direction is on the board
/// produces a move with that key.
pub proof fn lemma_keys_reach_neighbours(code: Seq<char>, x: int, y: int)
    requires
        in_field(x, y),
    ensures
        code == "KeyW"@ && in_field(x, y - 1) ==> key_message(code, x, y) == Some(MsgView::Move(code)),
        code == "KeyS"@ && in_field(x, y + 1) ==> key_message(code, x, y) == Some(MsgView::Move(code)),
        code == "KeyA"@ && in_field(x - 1, y) ==> key_message(code, x, y) == Some(MsgView::Move(code)),
        code == "KeyD"@ && in_field(x + 1, y) ==> key_message(code, x, y) == Some(MsgView::Move(code)),
{
}

/// The cell marked as the player's is the one in the player's column and row:
/// on the board, it is `x + FIELD_X * y`, whose column is `x` and row is `y`,
/// and no other cell of the board is marked.
pub proof fn lemma_player_cell_is_own_cell(m: PlayAreaModel)
    ensures
        in_field(m.x, m.y) ==> m.player_cell() == Some(m.x + FIELD_X * m.y),
        !in_field(m.x, m.y) ==> m.player_cell() is None,
        forall|i: int|
            0 <= i < FIELD_CELLS ==> (m.player_cell() == Some(i) <==> (i % (FIELD_X as int) == m.x
                && i / (FIELD_X as int) == m.y)),
{
    assert forall|i: int| 0 <= i < FIELD_CELLS implies (m.player_cell() == Some(i) <==> (i % (
    FIELD_X as int) == m.x && i / (FIELD_X as int) == m.y)) by {
        if in_field(m.x, m.y) {
            if i == m.x + 100 * m.y {
                assert(i % 100 == m.x && i / 100 == m.y) by (nonlinear_arith)
                    requires
                        i == m.x + 100 * m.y,
                        0 <= m.x < 100,
                        0 <= m.y < 50,
                ;
            }
            if i % 100 == m.x && i / 100 == m.y {
                assert(i == m.x + 100 * m.y) by (nonlinear_arith)
                    requires
                        i % 100 == m.x,
                        i / 100 == m.y,
                        0 <= i,
                ;
            }
        } else {
            if i % 100 == m.x && i / 100 == m.y {
                assert(0 <= i % 100 < 100 && 0 <= i / 100 < 50) by (nonlinear_arith)
                    requires
                        0 <= i < 5000,
                ;
            }
        }
    }
}

/// Whether a string's text is the given literal's.
fn is_code(code: &String, name: &str) -> (b: bool)
    ensures
        b == (code@ == name@),
{
    let n = String::from_str(name);
    *code == n
}

/// The step that a key code makes the player take, if any.
pub fn step_for_code(code: &String) -> (d: Option<Direction>)
    ensures
        d == step_of(code@),
{
    if is_code(code, "KeyW") {
        Some(Direction::Up)
    } else if is_code(code, "KeyS") {
        Some(Direction::Down)
    } else if is_code(code, "KeyA") {
        Some(Direction::Left)
    } else if is_code(code, "KeyD") {
        Some(Direction::Right)
    } else {
        None
    }
}

/// The message for a key press with the player at `(pos_x, pos_y)`.
pub fn key_to_msg(code: String, pos_x: i32, pos_y: i32) -> (r: Option<Msg>)
    ensures
        match r {
            Some(m) => key_message(code@, pos_x as int, pos_y as int) == Some(m@),
            None => key_message(code@, pos_x as int, pos_y as int) is None,
        },
{
    if (is_code(&code, "KeyW") && pos_y > 0) || (is_code(&code, "KeyS") && pos_y < FIELD_Y - 1)
        || (is_code(&code, "KeyA") && pos_x > 0) || (is_code(&code, "KeyD") && pos_x < FIELD_X
        - 1) {
        Some(Msg::Move(code))
    } else if pos_y == 0 || pos_y > FIELD_Y - 1 || pos_x == 0 || pos_x > FIELD_X - 1 {
        Some(Msg::Move(String::from_str("Edge")))
    } else {
        None
    }
}

/// The state of a play area: the board, the player and the popups.
pub struct PlayAreaApp {
    x: i32,
    y: i32,
    lox: i32,
    loy: i32,
    arena: Vec<String>,
    popup: Slab<()>,
    popped: bool,
    last_popup_key: usize,
    pub is_hover: bool,
    pub hover: String,
}

impl View for PlayAreaApp {
    type V = PlayAreaModel;

    closed spec fn view(&self) -> PlayAreaModel {
        PlayAreaModel {
            x: self.x as int,
            y: self.y as int,
            lox: self.lox as int,
            loy: self.loy as int,
            arena: self.arena@.map_values(|s: String| s@),
            popups: slab_keys(self.popup),
            next_popup_key: slab_next_key(self.popup),
            popup_slots: slab_slot_count(self.popup),
            popped: self.popped,
            last_popup_key: self.last_popup_key,
            is_hover: self.is_hover,
            hover: self.hover@,
        }
    }
}

impl PlayAreaApp {
    /// What every play area satisfies (see `PlayAreaModel::wf`).
    pub open spec fn wf(&self) -> bool {
        self@.wf()
    }

    /// A new play area: the player in the middle of a freshly drawn board,
    /// no popup open.
    pub fn create() -> (app: PlayAreaApp)
        ensures
            app.wf(),
            app@.x == 50,
            app@.y == 25,
            app@.lox == 0,
            app@.loy == 0,
            forall|i: int| 0 <= i < app@.arena.len() ==> is_arena_symbol(#[trigger] app@.arena[i]),
            exists|draws: Seq<usize>|
                {
                    &&& draws.len() == FIELD_CELLS
                    &&& forall|i: int|
                        0 <= i < draws.len() ==> {
                            &&& #[trigger] draws[i] < SYMBOL_COUNT
                            &&& arena_weights()[draws[i] as int] > 0
                            &&& app@.arena[i] == arena_symbol(draws[i] as int)
                        }
                },
            app@.popups == Set::<usize>::empty(),
            app@.next_popup_key == 0,
            app@.popup_slots == 0,
            !app@.popped,
            app@.last_popup_key == 0,
            !app@.is_hover,
            app@.hover == "Nothing"@,
    {
        let arena = Arena::new(50, 100);
        let app = PlayAreaApp {
            x: 50,
            y: 25,
            lox: 0,
            loy: 0,
            arena,
            popup: registry_new(),
            popped: false,
            last_popup_key: 0,
            is_hover: false,
            hover: String::from_str("Nothing"),
        };
        assert forall|i: int| 0 <= i < app@.arena.len() implies is_arena_symbol(#[trigger] app@.arena[i]) by {
            assert(is_arena_symbol(app.arena@[i]@));
        }
        proof {
            let draws = choose|draws: Seq<usize>|
                {
                    &&& draws.len() == 50 * 100
                    &&& forall|i: int|
                        0 <= i < draws.len() ==> {
                            &&& #[trigger] draws[i] < SYMBOL_COUNT
                            &&& arena_weights()[draws[i] as int] > 0
                            &&& app.arena@[i]@ == arena_symbol(draws[i] as int)
                        }
                };
            assert forall|i: int| 0 <= i < draws.len() implies {
                &&& #[trigger] draws[i] < SYMBOL_COUNT
                &&& arena_weights()[draws[i] as int] > 0
                &&& app@.arena[i] == arena_symbol(draws[i] as int)
            } by {
                assert(app.arena@[i]@ == arena_symbol(draws[i] as int));
            }
        }
        app
    }

    /// Column of the player.
    pub fn x(&self) -> (r: i32)
        ensures
            r == self@.x,
    {
        self.x
    }

    /// Row of the player.
    pub fn y(&self) -> (r: i32)
        ensures
            r == self@.y,
    {
        self.y
    }

    /// Horizontal scroll offset of the board, in pixels.
    pub fn lox(&self) -> (r: i32)
        ensures
            r == self@.lox,
    {
        self.lox
    }

    /// Vertical scroll offset of the board, in pixels.
    pub fn loy(&self) -> (r: i32)
        ensures
            r == self@.loy,
    {
        self.loy
    }

    /// Whether a popup is shown.
    pub fn popped(&self) -> (r: bool)
        ensures
            r == self@.popped,
    {
        self.popped
    }

    /// Key of the popup opened last.
    pub fn last_popup_key(&self) -> (r: usize)
        ensures
            r == self@.last_popup_key,
    {
        self.last_popup_key
    }

    /// Whether the popup filed under `key` is open.
    pub fn has_popup(&self, key: usize) -> (r: bool)
        ensures
            r == self@.popups.contains(key),
    {
        registry_contains(&self.popup, key)
    }

    /// How many popups are open.
    pub fn popup_count(&self) -> (n: usize)
        requires
            self.wf(),
        ensures
            n == self@.popups.len(),
    {
        registry_len(&self.popup)
    }

    /// Sets the board's scroll offsets, measured once the board is laid out.
    pub fn set_scroll(&mut self, lox: i32, loy: i32)
        ensures
            final(self)@ == (PlayAreaModel { lox: lox as int, loy: loy as int, ..old(self)@ }),
    {
        self.lox = lox;
        self.loy = loy;
    }

    /// The cell the player stands on, when on the board.
    pub fn player_cell(&self) -> (r: Option<usize>)
        ensures
            match r {
                Some(i) => self@.player_cell() == Some(i as int),
                None => self@.player_cell() is None,
            },
            r is Some <==> (0 <= self@.x < FIELD_X && 0 <= self@.y < FIELD_Y),
            r matches Some(i) ==> i as int % FIELD_X as int == self@.x && i as int / FIELD_X as int
                == self@.y,
    {
        if 0 <= self.x && self.x < FIELD_X && 0 <= self.y && self.y < FIELD_Y {
            Some((self.x + FIELD_X * self.y) as usize)
        } else {
            None
        }
    }

    /// The text of every board cell, row after row, as displayed: `"P"` where
    /// the player stands, the board's symbol elsewhere.
    pub fn board_cells(&self) -> (cells: Vec<String>)
        requires
            self.wf(),
        ensures
            cells@.len() == FIELD_CELLS,
            forall|i: int|
                0 <= i < FIELD_CELLS ==> (#[trigger] cells@[i])@ == (if self@.player_cell() == Some(i) {
                    "P"@
                } else {
                    self@.arena[i]
                }),
            0 <= self@.x < FIELD_X && 0 <= self@.y < FIELD_Y ==> cells@[self@.x + FIELD_X * self@.y]@
                == "P"@,
            forall|i: int|
                0 <= i < FIELD_CELLS && !(i % (FIELD_X as int) == self@.x && i / (FIELD_X as int)
                    == self@.y) ==> (#[trigger] cells@[i])@ == self@.arena[i],
    {
        proof {
            lemma_player_cell_is_own_cell(self@);
        }
        let mut cells: Vec<String> = Vec::new();
        let mut row: i32 = 0;
        while row < FIELD_Y
            invariant
                0 <= row <= FIELD_Y,
                self.wf(),
                cells@.len() == FIELD_X * row,
                forall|i: int|
                    0 <= i < cells@.len() ==> (#[trigger] cells@[i])@ == (if self@.player_cell() == Some(i) {
                        "P"@
                    } else {
                        self@.arena[i]
                    }),
            decreases FIELD_Y - row,
        {
            let mut col: i32 = 0;
            while col < FIELD_X
                invariant
                    0 <= row < FIELD_Y,
                    0 <= col <= FIELD_X,
                    self.wf(),
                    cells@.len() == FIELD_X * row + col,
                    forall|i: int|
                        0 <= i < cells@.len() ==> (#[trigger] cells@[i])@ == (if self@.player_cell() == Some(i) {
                            "P"@
                        } else {
                            self@.arena[i]
                        }),
                decreases FIELD_X - col,
            {
                let index = (FIELD_X * row + col) as usize;
                if col == self.x && row == self.y {
                    cells.push(String::from_str("P"));
                } else {
                    cells.push(self.arena[index].clone());
                }
                col = col + 1;
            }
            row = row + 1;
        }
        cells
    }

    /// Whether `update` accepts the message (see `PlayAreaModel::accepts`).
    pub fn accepts(&self, msg: &Msg, cell_w: i32, cell_h: i32) -> (b: bool)
        requires
            self.wf(),
        ensures
            b == self@.accepts(msg@, cell_w as int, cell_h as int),
    {
        match msg {
            Msg::Move(code) => {
                let (nx, ny, nlox, nloy): (i64, i64, i64, i64) = match step_for_code(code) {
                    Some(Direction::Up) => (
                        self.x as i64,
                        self.y as i64 - 1,
                        self.lox as i64,
                        self.loy as i64 - cell_h as i64,
                    ),
                    Some(Direction::Down) => (
                        self.x as i64,
                        self.y as i64 + 1,
                        self.lox as i64,
                        self.loy as i64 + cell_h as i64,
                    ),
                    Some(Direction::Left) => (
                        self.x as i64 - 1,
                        self.y as i64,
                        self.lox as i64 - cell_w as i64,
                        self.loy as i64,
                    ),
                    Some(Direction::Right) => (
                        self.x as i64 + 1,
                        self.y as i64,
                        self.lox as i64 + cell_w as i64,
                        self.loy as i64,
                    ),
                    None => (self.x as i64, self.y as i64, self.lox as i64, self.loy as i64),
                };
                let lo = i32::MIN as i64;
                let hi = i32::MAX as i64;
                if !(lo <= nx && nx <= hi && lo <= ny && ny <= hi && lo <= nlox && nlox <= hi
                    && lo <= nloy && nloy <= hi) {
                    return false;
                }
                let row_start: i64 = 100i64 * ny;
                if !(lo <= row_start && row_start <= hi) {
                    return false;
                }
                let index = nx + row_start;
                0 <= index && index < self.arena.len() as i64
            },
            Msg::PopUp(_) => registry_len(&self.popup) < REGISTRY_LIMIT,
            Msg::DestroyPopUp(key) => registry_contains(&self.popup, *key),
        }
    }

    /// Handles a message. `cell_w` and `cell_h` are the width and height of
    /// a board cell in whole pixels. Returns what the surroundings must do,
    /// in order.
    pub fn update(&mut self, msg: Msg, cell_w: i32, cell_h: i32) -> (effects: Vec<Effect>)
        requires
            old(self).wf(),
            old(self)@.accepts(msg@, cell_w as int, cell_h as int),
        ensures
            final(self).wf(),
            old(self)@.next(final(self)@, msg@, cell_w as int, cell_h as int),
            effects_view(effects@) == old(self)@.effects(msg@, cell_w as int, cell_h as int),
    {
        let ghost pre = self@;
        let mut effects: Vec<Effect> = Vec::new();
        match msg {
            Msg::Move(code) => {
                if self.popped {
                    effects.push(Effect::SendDestroyPopUp(self.last_popup_key));
                }
                match step_for_code(&code) {
                    Some(Direction::Up) => {
                        self.y = self.y - 1;
                        self.loy = self.loy - cell_h;
                        effects.push(Effect::Stepped(Direction::Up));
                    },
                    Some(Direction::Down) => {
                        self.y = self.y + 1;
                        self.loy = self.loy + cell_h;
                        effects.push(Effect::Stepped(Direction::Down));
                    },
                    Some(Direction::Left) => {
                        self.x = self.x - 1;
                        self.lox = self.lox - cell_w;
                        effects.push(Effect::Stepped(Direction::Left));
                    },
                    Some(Direction::Right) => {
                        self.x = self.x + 1;
                        self.lox = self.lox + cell_w;
                        effects.push(Effect::Stepped(Direction::Right));
                    },
                    None => {},
                }
                effects.push(Effect::KeepPlayerInView);
                let index = self.x + FIELD_X * self.y;
                let found = self.arena[index as usize].clone();
                if !is_code(&found, ".  ") && !is_code(&code, "Edge") {
                    effects.push(Effect::SendPopUp(found));
                }
                assert(self@ == pre.moved(code@, cell_w as int, cell_h as int));
            },
            Msg::PopUp(thing) => {
                if self.popped {
                    effects.push(Effect::SendDestroyPopUp(self.last_popup_key));
                }
                let key = registry_vacant_key(&self.popup);
                effects.push(Effect::ShowPopUp(key, thing));
                self.last_popup_key = key;
                self.popped = true;
                registry_insert(&mut self.popup);
            },
            Msg::DestroyPopUp(key) => {
                registry_remove(&mut self.popup, key);
                self.popped = false;
                effects.push(Effect::ClosePopUp(key));
            },
        }
        assert(effects_view(effects@) =~= pre.effects(msg@, cell_w as int, cell_h as int));
        effects
    }
}

} // verus!
