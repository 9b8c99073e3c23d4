//! The session: program memory, registers, the hand of cards and the
//! execution cursor, advanced once per frame from the input events.

use rand::StdRng;
use vstd::prelude::*;
use vstd::string::*;

use crate::engine::{
    advance_execution, break_execution, spec_advance, spec_on_playfield, start_execution,
    COUNTDOWN_LENGTH,
};
use crate::geometry::{inside_rect, spec_inside_rect, Point, Size};
use crate::input::{Event, KeyCode};
use crate::rng::{random_in, seeded};
use crate::ui::{
    do_button, spec_frame_init, spec_resolve, ButtonSpec, UIContext, UiId, NO_WIDGET,
};
use crate::value::{
    get_instructions, initial_program, Instruction, PLAYFIELD_SIZE, REGISTER_AMOUNT,
    REGISTER_VARIATION_COUNT,
};

verus! {

/// Column of the first card of the hand.
pub const CARD_OFFSET: i32 = 12;

/// Columns between the left edges of neighbouring cards of the hand.
pub const CARD_OFFSET_DELTA: i32 = 12;

/// Rows between the hand and the bottom of the viewport.
pub const HAND_HEIGHT_OFFSET: i32 = 8;

/// Number of cards dealt into an empty hand.
pub const HAND_SIZE: usize = 5;

/// Cards hold at least one and fewer than this many instructions when dealt.
pub const MAX_CARD_LENGTH: u8 = 4;

/// Width of a card, in cells.
pub const CARD_WIDTH: i32 = 16;

/// Height of a card, in cells.
pub const CARD_HEIGHT: i32 = 12;

/// Width of the run and break buttons.
pub const RUN_BUTTON_WIDTH: i32 = 11;

/// Seed of the generator that deals the cards of a new session.
pub const RNG_SEED: usize = 42;

/// A draggable bundle of instructions waiting to be placed.
#[derive(Clone, Debug)]
pub struct Card {
    pub location: Point,
    pub instructions: Vec<Instruction>,
}

impl Card {
    /// A card at the given non-negative cell holding `instructions`.
    pub fn new(x: i32, y: i32, instructions: Vec<Instruction>) -> (r: Card)
        requires
            x >= 0,
            y >= 0,
        ensures
            r.location == (Point { x, y }),
            r.instructions@ == instructions@,
    {
        Card { location: Point::new(x, y), instructions }
    }
}

/// The whole state of a session.
pub struct Game {
    pub instructions: [Instruction; PLAYFIELD_SIZE],
    pub scroll_offset: i32,
    pub cards: Vec<Card>,
    pub selected_card: Option<usize>,
    pub playfield_right_edge: i32,
    pub ui_context: UIContext,
    pub run_button_spec: ButtonSpec,
    pub executing_address: Option<i32>,
    pub instruction_countdown: u16,
    pub registers: [u8; REGISTER_AMOUNT],
    pub rng: StdRng,
}

/// Row of the hand for a viewport of the given height.
pub open spec fn spec_hand_height(height: int) -> int {
    height - HAND_HEIGHT_OFFSET
}

/// Column of the card at position `i` of the hand.
pub open spec fn card_column(i: int) -> int {
    CARD_OFFSET + CARD_OFFSET_DELTA * i
}

/// Row of the hand for a viewport of the given height.
pub fn hand_height(height: i32) -> (r: i32)
    requires
        height >= i32::MIN + HAND_HEIGHT_OFFSET,
    ensures
        r == spec_hand_height(height as int),
{
    height - HAND_HEIGHT_OFFSET
}

/// Lays out one card per instruction list, left to right on the hand row.
pub fn make_hand(height: i32, instructions_list: Vec<Vec<Instruction>>) -> (r: Vec<Card>)
    requires
        height >= i32::MIN + HAND_HEIGHT_OFFSET,
        card_column(instructions_list.len() as int) <= i32::MAX,
    ensures
        r.len() == instructions_list.len(),
        forall|i: int|
            0 <= i < r.len() ==> (#[trigger] r[i]).location == (Point {
                x: card_column(i) as i32,
                y: spec_hand_height(height as int) as i32,
            }) && r[i].instructions@ == instructions_list[i]@,
{
    let mut result: Vec<Card> = Vec::new();
    let mut offset: i32 = CARD_OFFSET;
    let y: i32 = hand_height(height);
    for instructions in it: instructions_list.into_iter()
        invariant
            it.seq() == instructions_list@,
            result.len() == it.index(),
            card_column(it.seq().len() as int) <= i32::MAX,
            offset == card_column(it.index() as int),
            y == spec_hand_height(height as int),
            forall|i: int|
                0 <= i < result.len() ==> #[trigger] result[i].location == (Point {
                    x: card_column(i) as i32,
                    y: y,
                }) && result[i].instructions@ == instructions_list[i]@,
    {
        result.push(Card { location: Point { x: offset, y }, instructions });
        offset = offset + CARD_OFFSET_DELTA;
    }
    assert(forall|i: int| 0 <= i < result.len() ==> #[trigger] result[i].location.y == y);
    result
}

/// Moves the cards of the hand to consecutive columns from the left,
/// keeping their rows and instructions.
pub fn collect_hand(cards: &mut Vec<Card>)
    requires
        card_column(old(cards).len() as int) <= i32::MAX,
    ensures
        final(cards).len() == old(cards).len(),
        forall|i: int|
            0 <= i < final(cards).len() ==> #[trigger] final(cards)[i].location == (Point {
                x: card_column(i) as i32,
                y: old(cards)[i].location.y,
            }) && final(cards)[i].instructions == old(cards)[i].instructions,
{
    let mut offset: i32 = CARD_OFFSET;
    let mut i: usize = 0;
    while i < cards.len()
        invariant
            cards.len() == old(cards).len(),
            card_column(old(cards).len() as int) <= i32::MAX,
            i <= cards.len(),
            offset == card_column(i as int),
            forall|j: int|
                0 <= j < i ==> #[trigger] cards[j].location == (Point {
                    x: card_column(j) as i32,
                    y: old(cards)[j].location.y,
                }) && cards[j].instructions == old(cards)[j].instructions,
            forall|j: int| i <= j < cards.len() ==> #[trigger] cards[j] == old(cards)[j],
        decreases cards.len() - i,
    {
        let mut card = cards.remove(i);
        card.location.x = offset;
        cards.insert(i, card);
        offset = offset + CARD_OFFSET_DELTA;
        i = i + 1;
    }
}

/// Whether `cards` is a freshly dealt hand for a viewport of the given
/// height: `HAND_SIZE` cards laid out left to right on the hand row, each
/// holding at least one and fewer than `MAX_CARD_LENGTH` instructions that
/// use only the registers random instructions draw from.
pub open spec fn dealt_hand(cards: Seq<Card>, height: int) -> bool {
    &&& cards.len() == HAND_SIZE
    &&& forall|i: int|
        0 <= i < cards.len() ==> {
            &&& (#[trigger] cards[i]).location == (Point {
                x: card_column(i) as i32,
                y: spec_hand_height(height) as i32,
            })
            &&& 1 <= cards[i].instructions.len() < MAX_CARD_LENGTH
            &&& forall|j: int|
                0 <= j < cards[i].instructions.len()
                    ==> (#[trigger] cards[i].instructions[j]).registers_below(
                    REGISTER_VARIATION_COUNT as nat,
                )
        }
}

/// Deals a new hand from `rng`: `HAND_SIZE` cards, each of a drawn length
/// in `[1, MAX_CARD_LENGTH)` filled with drawn instructions.
pub fn get_cards(rng: &mut StdRng, height: i32) -> (r: Vec<Card>)
    requires
        height >= i32::MIN + HAND_HEIGHT_OFFSET,
    ensures
        dealt_hand(r@, height as int),
{
    let mut instructions_vector: Vec<Vec<Instruction>> = Vec::new();
    for dealt in 0..HAND_SIZE
        invariant
            instructions_vector.len() == dealt,
            forall|i: int|
                0 <= i < instructions_vector.len() ==> {
                    &&& 1 <= (#[trigger] instructions_vector[i]).len() < MAX_CARD_LENGTH
                    &&& forall|j: int|
                        0 <= j < instructions_vector[i].len()
                            ==> (#[trigger] instructions_vector[i][j]).registers_below(
                            REGISTER_VARIATION_COUNT as nat,
                        )
                },
    {
        let instruction_count: u8 = random_in(rng, 1, MAX_CARD_LENGTH);
        let mut instructions: Vec<Instruction> = Vec::new();
        for filled in 0..instruction_count
            invariant
                instructions.len() == filled,
                forall|j: int|
                    0 <= j < instructions.len() ==> (#[trigger] instructions[j]).registers_below(
                        REGISTER_VARIATION_COUNT as nat,
                    ),
        {
            instructions.push(Instruction::rand(rng));
        }
        instructions_vector.push(instructions);
    }
    make_hand(height, instructions_vector)
}

/// Identity of the run button.
pub const RUN_BUTTON_ID: UiId = -704788405;

/// Identity of the break button.
pub const BREAK_BUTTON_ID: UiId = -804788405;

/// Identity reserved for a dragged card.
pub const CARD_UI_ID: UiId = 1;

/// Right edge of the playfield column: a card dropped further right misses it.
pub const PLAYFIELD_RIGHT_EDGE: i32 = 16;

/// Horizontal offset from the pointer to the left edge of a dragged card.
pub const CARD_MOUSE_X_OFFSET: i32 = -8;

/// Vertical offset from the pointer to the top edge of a dragged card.
pub const CARD_MOUSE_Y_OFFSET: i32 = 0;

impl Game {
    /// The session invariant: the hand holds at most `HAND_SIZE` cards, a
    /// selection names one of them, and a running cursor stands on the
    /// playfield with a countdown of at most `COUNTDOWN_LENGTH`.
    pub open spec fn wf(&self) -> bool {
        &&& self.cards.len() <= HAND_SIZE
        &&& self.selected_card matches Some(i) ==> i < self.cards.len()
        &&& self.executing_address matches Some(a) ==> spec_on_playfield(a as int)
        &&& self.instruction_countdown <= COUNTDOWN_LENGTH
    }
}

/// The run button of a viewport of the given width, at its top right.
pub fn run_button_spec(width: i32) -> (r: ButtonSpec)
    requires
        width >= i32::MIN + RUN_BUTTON_WIDTH + 1,
    ensures
        r.x == width - (RUN_BUTTON_WIDTH + 1),
        r.y == 4,
        r.w == RUN_BUTTON_WIDTH,
        r.h == 3,
        r.text@ == "Run"@,
{
    ButtonSpec {
        x: width - (RUN_BUTTON_WIDTH + 1),
        y: 4,
        w: RUN_BUTTON_WIDTH,
        h: 3,
        text: String::from_str("Run"),
    }
}

/// The break button, just below the run button `run`.
pub fn break_button_spec(run: &ButtonSpec) -> (r: ButtonSpec)
    ensures
        r.x == run.x,
        r.y == 8,
        r.w == run.w,
        r.h == 3,
        r.text@ == "Break"@,
{
    ButtonSpec { x: run.x, y: 8, w: run.w, h: 3, text: String::from_str("Break") }
}

/// Starts a session on the program `instructions` in a viewport of size
/// `size`: nothing scrolled, selected or running, all registers zero, and a
/// hand dealt from a generator seeded with `RNG_SEED`.
pub fn new_game(instructions: [Instruction; PLAYFIELD_SIZE], size: Size) -> (r: Game)
    requires
        size.width >= i32::MIN + RUN_BUTTON_WIDTH + 1,
        size.height >= i32::MIN + HAND_HEIGHT_OFFSET,
    ensures
        r.wf(),
        r.instructions == instructions,
        r.scroll_offset == 0,
        dealt_hand(r.cards@, size.height as int),
        r.selected_card is None,
        r.playfield_right_edge == PLAYFIELD_RIGHT_EDGE,
        r.ui_context == (UIContext { hot: NO_WIDGET, active: NO_WIDGET, next_hot: NO_WIDGET }),
        r.run_button_spec.x == size.width - (RUN_BUTTON_WIDTH + 1),
        r.run_button_spec.y == 4,
        r.run_button_spec.w == RUN_BUTTON_WIDTH,
        r.run_button_spec.h == 3,
        r.run_button_spec.text@ == "Run"@,
        r.executing_address is None,
        r.instruction_countdown == COUNTDOWN_LENGTH,
        r.registers@ == Seq::new(REGISTER_AMOUNT as nat, |i: int| 0u8),
{
    let mut rng = seeded(RNG_SEED);
    let cards = get_cards(&mut rng, size.height);
    let registers = [0u8; REGISTER_AMOUNT];
    assert(registers@ =~= Seq::new(REGISTER_AMOUNT as nat, |i: int| 0u8));
    Game {
        instructions,
        scroll_offset: 0,
        cards,
        selected_card: None,
        playfield_right_edge: PLAYFIELD_RIGHT_EDGE,
        ui_context: UIContext::new(),
        run_button_spec: run_button_spec(size.width),
        executing_address: None,
        instruction_countdown: COUNTDOWN_LENGTH,
        registers,
        rng,
    }
}

/// For a viewport of non-negative height `height`, every raw scroll offset
/// is shown as an offset in `[1 - height, PLAYFIELD_SIZE - 1]`.
pub proof fn lemma_scroll_clamp_bounds(height: i32, scroll_offset: i32)
    requires
        height >= 0,
    ensures
        1 - height <= spec_clamp(1 - height, scroll_offset as int, PLAYFIELD_SIZE - 1)
            <= PLAYFIELD_SIZE - 1,
{
}

/// `input` confined to `[min, max]`, tested against `min` first.
pub open spec fn spec_clamp(min: int, input: int, max: int) -> int {
    if input < min {
        min
    } else if input > max {
        max
    } else {
        input
    }
}

/// The scroll offset that is shown for a viewport of the given height: the
/// raw offset confined to `[1 - height, PLAYFIELD_SIZE - 1]`.
pub fn clamp_scroll_offset(height: i32, scroll_offset: i32) -> (r: i32)
    requires
        height > i32::MIN + 1,
    ensures
        r == spec_clamp(1 - height, scroll_offset as int, PLAYFIELD_SIZE - 1),
{
    let len: i32 = PLAYFIELD_SIZE as i32;
    let min: i32 = 1 - height;
    let max: i32 = len - 1;
    if scroll_offset < min {
        min
    } else if scroll_offset > max {
        max
    } else {
        scroll_offset
    }
}

/// The address a card dragged with the pointer at `mouse_pos` would be
/// dropped at: the playfield row under the row below the card's top edge,
/// counted from the raw scroll offset, if the card's left edge is not right
/// of the playfield and that row holds an address.
pub open spec fn spec_over_address(scroll_offset: int, right_edge: int, mouse_pos: Point) -> Option<
    int,
> {
    let left = if mouse_pos.x + CARD_MOUSE_X_OFFSET >= 0 {
        mouse_pos.x + CARD_MOUSE_X_OFFSET
    } else {
        0
    };
    let top = if mouse_pos.y + CARD_MOUSE_Y_OFFSET >= 0 {
        mouse_pos.y + CARD_MOUSE_Y_OFFSET
    } else {
        0
    };
    let address = scroll_offset + top + 1;
    if left > right_edge {
        None
    } else if spec_on_playfield(address) {
        Some(address)
    } else {
        None
    }
}

/// The address a card dragged with the pointer at `mouse_pos` would be
/// dropped at, if any.
pub fn over_address(game: &Game, mouse_pos: Point) -> (r: Option<usize>)
    requires
        mouse_pos.x >= i32::MIN - CARD_MOUSE_X_OFFSET,
        mouse_pos.y >= i32::MIN - CARD_MOUSE_Y_OFFSET,
    ensures
        r matches Some(a) ==> spec_over_address(
            game.scroll_offset as int,
            game.playfield_right_edge as int,
            mouse_pos,
        ) == Some(a as int),
        r is None ==> spec_over_address(
            game.scroll_offset as int,
            game.playfield_right_edge as int,
            mouse_pos,
        ) is None,
{
    let card_upper_left = mouse_pos.add(CARD_MOUSE_X_OFFSET, CARD_MOUSE_Y_OFFSET);
    if card_upper_left.x > game.playfield_right_edge {
        return None;
    }
    let address: i64 = game.scroll_offset as i64 + card_upper_left.y as i64 + 1;
    if address >= 0 && address < PLAYFIELD_SIZE as i64 {
        Some(address as usize)
    } else {
        None
    }
}

/// Whether the card laid out at `location` covers `point`.
pub open spec fn card_covers(location: Point, point: Point) -> bool {
    spec_inside_rect(point, location.x as int, location.y as int, CARD_WIDTH as int, CARD_HEIGHT as int)
}

/// The highest index below `n` of a card of `cards` that covers `point`.
pub open spec fn topmost_covering(cards: Seq<Card>, point: Point, n: int) -> Option<int>
    decreases n,
{
    if n <= 0 {
        None
    } else if card_covers(cards[n - 1].location, point) {
        Some(n - 1)
    } else {
        topmost_covering(cards, point, n - 1)
    }
}

/// The card `topmost_covering` finds lies below `n`, and covers `point`.
pub proof fn lemma_topmost_covering(cards: Seq<Card>, point: Point, n: int)
    ensures
        topmost_covering(cards, point, n) matches Some(i) ==> 0 <= i < n && card_covers(
            cards[i].location,
            point,
        ),
    decreases n,
{
    if n > 0 {
        lemma_topmost_covering(cards, point, n - 1);
    }
}

/// The card of `cards` a click at `point` picks: the topmost one under it,
/// that is the one drawn last, of highest index.
pub open spec fn spec_clicked_card(cards: Seq<Card>, point: Point) -> Option<usize> {
    match topmost_covering(cards, point, cards.len() as int) {
        Some(i) => Some(i as usize),
        None => None,
    }
}

/// The card under `mouse_position` that a click picks, if any.
pub fn clicked_card(game: &Game, mouse_position: Point) -> (r: Option<usize>)
    ensures
        r == spec_clicked_card(game.cards@, mouse_position),
        r matches Some(i) ==> i < game.cards.len(),
{
    proof {
        lemma_topmost_covering(game.cards@, mouse_position, game.cards.len() as int);
    }
    let mut i: usize = game.cards.len();
    while i > 0
        invariant
            i <= game.cards.len(),
            topmost_covering(game.cards@, mouse_position, game.cards.len() as int)
                == topmost_covering(game.cards@, mouse_position, i as int),
        decreases i,
    {
        let card = &game.cards[i - 1];
        if inside_rect(mouse_position, card.location.x, card.location.y, CARD_WIDTH, CARD_HEIGHT) {
            return Some(i - 1);
        }
        i = i - 1;
    }
    None
}

/// `memory` with `instrs` written over it from `address` on.
pub open spec fn placed(memory: Seq<Instruction>, address: int, instrs: Seq<Instruction>) -> Seq<
    Instruction,
> {
    Seq::new(
        memory.len(),
        |k: int|
            if address <= k < address + instrs.len() {
                instrs[k - address]
            } else {
                memory[k]
            },
    )
}

/// Whether `after` is the hand `before` moved to consecutive columns from
/// the left, rows and instructions kept.
pub open spec fn repacked(before: Seq<Card>, after: Seq<Card>) -> bool {
    &&& after.len() == before.len()
    &&& forall|i: int|
        0 <= i < after.len() ==> (#[trigger] after[i]).location == (Point {
            x: card_column(i) as i32,
            y: before[i].location.y,
        }) && after[i].instructions == before[i].instructions
}

/// Whether `before` and `after` agree on everything but the program, the
/// hand and the selection.
pub open spec fn same_but_hand(before: Game, after: Game) -> bool {
    &&& after.scroll_offset == before.scroll_offset
    &&& after.playfield_right_edge == before.playfield_right_edge
    &&& after.ui_context == before.ui_context
    &&& after.run_button_spec == before.run_button_spec
    &&& after.executing_address == before.executing_address
    &&& after.instruction_countdown == before.instruction_countdown
    &&& after.registers == before.registers
    &&& after.rng == before.rng
}

/// The address at which a press at `mouse_pos` drops the selected card of
/// `game`: the address under the card, when all of its instructions fit
/// from there to the end of the playfield.
pub open spec fn drop_address(game: Game, mouse_pos: Point) -> Option<int> {
    let i = game.selected_card->Some_0;
    match spec_over_address(game.scroll_offset as int, game.playfield_right_edge as int, mouse_pos) {
        Some(a) => if a + game.cards[i as int].instructions.len() <= PLAYFIELD_SIZE {
            Some(a)
        } else {
            None
        },
        None => None,
    }
}

/// What a press at `mouse_pos` does while a card is selected: where the
/// card fits, its instructions are written into the program from the drop
/// address on and the card leaves the hand, which is re-packed; elsewhere
/// program and hand stay. Either way the selection is cleared.
pub open spec fn dropped(before: Game, after: Game, mouse_pos: Point) -> bool {
    let i = before.selected_card->Some_0 as int;
    &&& same_but_hand(before, after)
    &&& after.selected_card is None
    &&& match drop_address(before, mouse_pos) {
        Some(a) => {
            &&& after.instructions@ == placed(
                before.instructions@,
                a,
                before.cards[i].instructions@,
            )
            &&& repacked(before.cards@.remove(i), after.cards@)
        },
        None => {
            &&& after.instructions == before.instructions
            &&& after.cards@ == before.cards@
        },
    }
}

/// Drops the selected card where the pointer at `mouse_pos` puts it, if it
/// fits there, and clears the selection. Returns whether it was placed.
pub fn place_selected_card(game: &mut Game, mouse_pos: Point) -> (r: bool)
    requires
        old(game).wf(),
        old(game).selected_card is Some,
        mouse_pos.x >= i32::MIN - CARD_MOUSE_X_OFFSET,
    ensures
        final(game).wf(),
        dropped(*old(game), *final(game), mouse_pos),
        r == drop_address(*old(game), mouse_pos) is Some,
{
    let index: usize = game.selected_card.unwrap();
    let mut placed_card = false;
    if let Some(address) = over_address(game, mouse_pos) {
        let n: usize = game.cards[index].instructions.len();
        if n <= PLAYFIELD_SIZE - address {
            let ghost before = *game;
            let card = game.cards.remove(index);
            let mut memory = game.instructions;
            let mut k: usize = 0;
            while k < n
                invariant
                    n == card.instructions.len(),
                    address + n <= PLAYFIELD_SIZE,
                    k <= n,
                    forall|m: int|
                        0 <= m < PLAYFIELD_SIZE ==> #[trigger] memory@[m] == if address <= m
                            < address + k {
                            card.instructions@[m - address]
                        } else {
                            before.instructions@[m]
                        },
                decreases n - k,
            {
                memory[address + k] = card.instructions[k];
                k = k + 1;
            }
            assert(memory@ =~= placed(before.instructions@, address as int, card.instructions@));
            game.instructions = memory;
            collect_hand(&mut game.cards);
            placed_card = true;
        }
    }
    game.selected_card = None;
    placed_card
}

/// `offset + delta`, saturated at the bounds of `i32`.
pub open spec fn saturated(offset: int, delta: int) -> i32 {
    if offset + delta > i32::MAX {
        i32::MAX
    } else if offset + delta < i32::MIN {
        i32::MIN
    } else {
        (offset + delta) as i32
    }
}

/// `offset + delta`, saturated at the bounds of `i32`.
pub fn saturating_scroll(offset: i32, delta: i32) -> (r: i32)
    ensures
        r == saturated(offset as int, delta as int),
{
    let sum: i64 = offset as i64 + delta as i64;
    if sum > i32::MAX as i64 {
        i32::MAX
    } else if sum < i32::MIN as i64 {
        i32::MIN
    } else {
        sum as i32
    }
}

/// Whether `after` is the hand `before` moved to the hand row of a viewport
/// of the given height, columns and instructions kept.
pub open spec fn moved_to_row(before: Seq<Card>, after: Seq<Card>, height: int) -> bool {
    &&& after.len() == before.len()
    &&& forall|i: int|
        0 <= i < after.len() ==> (#[trigger] after[i]).location == (Point {
            x: before[i].location.x,
            y: spec_hand_height(height) as i32,
        }) && after[i].instructions == before[i].instructions
}

/// Moves every card of the hand to the hand row of a viewport of the given
/// height.
pub fn move_hand_to_row(cards: &mut Vec<Card>, height: i32)
    requires
        height >= i32::MIN + HAND_HEIGHT_OFFSET,
    ensures
        moved_to_row(old(cards)@, final(cards)@, height as int),
{
    let y: i32 = hand_height(height);
    let mut i: usize = 0;
    while i < cards.len()
        invariant
            cards.len() == old(cards).len(),
            i <= cards.len(),
            y == spec_hand_height(height as int),
            forall|j: int|
                0 <= j < i ==> (#[trigger] cards[j]).location == (Point {
                    x: old(cards)[j].location.x,
                    y: y,
                }) && cards[j].instructions == old(cards)[j].instructions,
            forall|j: int| i <= j < cards.len() ==> #[trigger] cards[j] == old(cards)[j],
        decreases cards.len() - i,
    {
        let mut card = cards.remove(i);
        card.location.y = y;
        cards.insert(i, card);
        i = i + 1;
    }
}

/// Whether `event` asks to quit: the window closed or Escape pressed.
pub open spec fn is_quit(event: Event) -> bool {
    match event {
        Event::Close => true,
        Event::KeyPressed { key: KeyCode::Escape, .. } => true,
        _ => false,
    }
}

/// Whether `event` is a press of the left mouse button.
pub open spec fn is_left_press(event: Event) -> bool {
    event matches Event::KeyPressed { key: KeyCode::MouseLeft, .. }
}

/// Whether `event` is a release of the left mouse button.
pub open spec fn is_left_release(event: Event) -> bool {
    event matches Event::KeyReleased { key: KeyCode::MouseLeft, .. }
}

/// Whether `game` is a session just started in a viewport of size `size`
/// on the initial program, its hand freshly dealt.
pub open spec fn fresh_session(game: Game, size: Size) -> bool {
    &&& game.wf()
    &&& game.instructions@ == initial_program()
    &&& game.scroll_offset == 0
    &&& dealt_hand(game.cards@, size.height as int)
    &&& game.selected_card is None
    &&& game.playfield_right_edge == PLAYFIELD_RIGHT_EDGE
    &&& game.ui_context == (UIContext { hot: NO_WIDGET, active: NO_WIDGET, next_hot: NO_WIDGET })
    &&& game.run_button_spec.x == size.width - (RUN_BUTTON_WIDTH + 1)
    &&& game.run_button_spec.y == 4
    &&& game.run_button_spec.w == RUN_BUTTON_WIDTH
    &&& game.run_button_spec.h == 3
    &&& game.run_button_spec.text@ == "Run"@
    &&& game.executing_address is None
    &&& game.instruction_countdown == COUNTDOWN_LENGTH
    &&& game.registers@ == Seq::new(REGISTER_AMOUNT as nat, |i: int| 0u8)
}

/// What one event does to the session, with the pointer at `mouse_pos` in a
/// viewport of size `viewport`.
/// - A wheel turn, Up or Down moves the scroll offset, saturating.
/// - A left press drops the selected card, or else selects the card under
///   the pointer; a right press clears the selection.
/// - Control-R starts a new session.
/// - A resize moves the hand to the new hand row, unless that row would lie
///   below `i32::MIN`.
/// - Anything else, quitting included, changes nothing.
pub open spec fn event_effect(
    before: Game,
    after: Game,
    event: Event,
    mouse_pos: Point,
    viewport: Size,
) -> bool {
    match event {
        Event::MouseScroll { delta } => after == Game {
            scroll_offset: saturated(before.scroll_offset as int, delta as int),
            ..before
        },
        Event::KeyPressed { key: KeyCode::MouseLeft, .. } => if before.selected_card is Some {
            dropped(before, after, mouse_pos)
        } else {
            after == Game {
                selected_card: spec_clicked_card(before.cards@, mouse_pos),
                ..before
            }
        },
        Event::KeyPressed { key: KeyCode::MouseRight, .. } => after == Game {
            selected_card: None,
            ..before
        },
        Event::KeyPressed { key: KeyCode::Up, .. } => after == Game {
            scroll_offset: saturated(before.scroll_offset as int, -1),
            ..before
        },
        Event::KeyPressed { key: KeyCode::Down, .. } => after == Game {
            scroll_offset: saturated(before.scroll_offset as int, 1),
            ..before
        },
        Event::KeyPressed { key: KeyCode::R, ctrl: true, .. } => fresh_session(after, viewport),
        Event::Resize { width, height } => if height >= i32::MIN + HAND_HEIGHT_OFFSET {
            &&& same_but_hand(before, after)
            &&& after.instructions == before.instructions
            &&& after.selected_card == before.selected_card
            &&& moved_to_row(before.cards@, after.cards@, height as int)
        } else {
            after == before
        },
        _ => after == before,
    }
}

/// Applies one input event to the session; returns whether it asks to quit,
/// in which case nothing else is done.
pub fn handle_event(game: &mut Game, event: Event, mouse_pos: Point, viewport: Size) -> (r: bool)
    requires
        old(game).wf(),
        mouse_pos.x >= i32::MIN - CARD_MOUSE_X_OFFSET,
        viewport.width >= i32::MIN + RUN_BUTTON_WIDTH + 1,
        viewport.height >= i32::MIN + HAND_HEIGHT_OFFSET,
    ensures
        final(game).wf(),
        r == is_quit(event),
        r ==> *final(game) == *old(game),
        !r ==> event_effect(*old(game), *final(game), event, mouse_pos, viewport),
{
    match event {
        Event::MouseScroll { delta } => {
            game.scroll_offset = saturating_scroll(game.scroll_offset, delta);
        },
        Event::KeyPressed { key: KeyCode::MouseLeft, .. } => {
            if game.selected_card.is_some() {
                place_selected_card(game, mouse_pos);
            } else {
                game.selected_card = clicked_card(game, mouse_pos);
            }
        },
        Event::KeyPressed { key: KeyCode::MouseRight, .. } => {
            game.selected_card = None;
        },
        Event::KeyPressed { key: KeyCode::Up, .. } => {
            game.scroll_offset = saturating_scroll(game.scroll_offset, -1);
        },
        Event::KeyPressed { key: KeyCode::Down, .. } => {
            game.scroll_offset = saturating_scroll(game.scroll_offset, 1);
        },
        Event::KeyPressed { key: KeyCode::R, ctrl: true, .. } => {
            *game = new_game(get_instructions(), viewport);
        },
        Event::Resize { width, height } => {
            if height >= i32::MIN + HAND_HEIGHT_OFFSET {
                move_hand_to_row(&mut game.cards, height);
            }
        },
        Event::Close | Event::KeyPressed { key: KeyCode::Escape, .. } => {
            return true;
        },
        _ => {},
    }
    false
}

/// The interaction context with the card drag coupled in: while a card is
/// selected the reserved card identity is both hot and active, so that no
/// widget can claim the pointer; once the selection is gone, a context still
/// held by the card is released.
pub open spec fn card_coupled(ctx: UIContext, card_selected: bool) -> UIContext {
    if card_selected {
        UIContext { hot: CARD_UI_ID, active: CARD_UI_ID, ..ctx }
    } else if ctx.hot == CARD_UI_ID {
        UIContext { hot: NO_WIDGET, active: NO_WIDGET, ..ctx }
    } else {
        ctx
    }
}

/// Whether the pointer at `mouse_pos` is over the button `spec`.
pub open spec fn over_button(spec: ButtonSpec, mouse_pos: Point) -> bool {
    spec_inside_rect(mouse_pos, spec.x as int, spec.y as int, spec.w as int, spec.h as int)
}

/// Whether the pointer at `mouse_pos` is over the break button below `run`.
pub open spec fn over_break_button(run: ButtonSpec, mouse_pos: Point) -> bool {
    spec_inside_rect(mouse_pos, run.x as int, 8, run.w as int, 3)
}

/// What the end of a frame does once its events are handled, given whether
/// the left button went down and up during the frame. An empty hand is dealt
/// anew; the execution cursor advances one frame; the card drag is coupled
/// into the interaction context, which starts its frame; then the run
/// button, and after it the break button, are resolved: a click on run
/// starts a run at address zero, a click on break stops any run; both
/// restore a full countdown.
pub open spec fn frame_effect(
    before: Game,
    after: Game,
    pressed: bool,
    released: bool,
    mouse_pos: Point,
    viewport: Size,
) -> bool {
    let (registers, cursor, countdown) = spec_advance(
        before.instructions@,
        before.registers@,
        before.executing_address,
        before.instruction_countdown,
    );
    let ctx = spec_frame_init(card_coupled(before.ui_context, before.selected_card is Some));
    let (ctx_run, run) = spec_resolve(
        ctx,
        RUN_BUTTON_ID,
        over_button(before.run_button_spec, mouse_pos),
        pressed,
        released,
    );
    let (ctx_break, stop) = spec_resolve(
        ctx_run,
        BREAK_BUTTON_ID,
        over_break_button(before.run_button_spec, mouse_pos),
        pressed,
        released,
    );
    &&& if before.cards.len() == 0 {
        dealt_hand(after.cards@, viewport.height as int)
    } else {
        after.cards == before.cards && after.rng == before.rng
    }
    &&& after.registers@ == registers
    &&& after.executing_address == if stop {
        None
    } else if run {
        Some(0i32)
    } else {
        cursor
    }
    &&& after.instruction_countdown == if stop || run {
        COUNTDOWN_LENGTH
    } else {
        countdown
    }
    &&& after.ui_context == ctx_break
    &&& after.instructions == before.instructions
    &&& after.scroll_offset == before.scroll_offset
    &&& after.selected_card == before.selected_card
    &&& after.playfield_right_edge == before.playfield_right_edge
    &&& after.run_button_spec == before.run_button_spec
}

/// Ends a frame whose events are handled; see `frame_effect`.
pub fn finish_frame(
    game: &mut Game,
    left_mouse_pressed: bool,
    left_mouse_released: bool,
    mouse_pos: Point,
    viewport: Size,
)
    requires
        old(game).wf(),
        viewport.height >= i32::MIN + HAND_HEIGHT_OFFSET,
    ensures
        final(game).wf(),
        frame_effect(
            *old(game),
            *final(game),
            left_mouse_pressed,
            left_mouse_released,
            mouse_pos,
            viewport,
        ),
{
    if game.cards.len() == 0 {
        game.cards = get_cards(&mut game.rng, viewport.height);
    }
    advance_execution(
        &game.instructions,
        &mut game.registers,
        &mut game.executing_address,
        &mut game.instruction_countdown,
    );
    if game.selected_card.is_some() {
        game.ui_context.hot = CARD_UI_ID;
        game.ui_context.active = CARD_UI_ID;
    } else if game.ui_context.hot == CARD_UI_ID {
        game.ui_context.set_not_hot();
        game.ui_context.set_not_active();
    }
    game.ui_context.frame_init();
    if do_button(
        &mut game.ui_context,
        &game.run_button_spec,
        RUN_BUTTON_ID,
        mouse_pos,
        left_mouse_pressed,
        left_mouse_released,
    ) {
        start_execution(&mut game.executing_address, &mut game.instruction_countdown);
    }
    let break_spec = break_button_spec(&game.run_button_spec);
    if do_button(
        &mut game.ui_context,
        &break_spec,
        BREAK_BUTTON_ID,
        mouse_pos,
        left_mouse_pressed,
        left_mouse_released,
    ) {
        break_execution(&mut game.executing_address, &mut game.instruction_countdown);
    }
}

/// Whether `trace` is the run of sessions that handling the first
/// `trace.len() - 1` of `events` passes through, none of them a quit.
pub open spec fn replays(trace: Seq<Game>, events: Seq<Event>, mouse_pos: Point, viewport: Size) -> bool {
    &&& 1 <= trace.len() <= events.len() + 1
    &&& forall|j: int|
        0 <= j < trace.len() - 1 ==> !is_quit(events[j]) && event_effect(
            #[trigger] trace[j],
            trace[j + 1],
            events[j],
            mouse_pos,
            viewport,
        )
}

/// Whether some event of `events` presses the left mouse button.
pub open spec fn any_left_press(events: Seq<Event>) -> bool {
    exists|j: int| 0 <= j < events.len() && is_left_press(#[trigger] events[j])
}

/// Whether some event of `events` releases the left mouse button.
pub open spec fn any_left_release(events: Seq<Event>) -> bool {
    exists|j: int| 0 <= j < events.len() && is_left_release(#[trigger] events[j])
}

/// Whether a frame that handled `events` took the session from `before` to
/// `after` through `trace` and returned `quit`. The events are handled in
/// order until one asks to quit, which ends the frame with the session as it
/// stands; otherwise the frame ends as `frame_effect` says.
pub open spec fn frame_outcome(
    before: Game,
    after: Game,
    quit: bool,
    trace: Seq<Game>,
    events: Seq<Event>,
    mouse_pos: Point,
    viewport: Size,
) -> bool {
    &&& replays(trace, events, mouse_pos, viewport)
    &&& trace[0] == before
    &&& if quit {
        &&& trace.len() - 1 < events.len()
        &&& is_quit(events[trace.len() - 1])
        &&& after == trace.last()
    } else {
        &&& trace.len() - 1 == events.len()
        &&& frame_effect(
            trace.last(),
            after,
            any_left_press(events),
            any_left_release(events),
            mouse_pos,
            viewport,
        )
    }
}

/// Runs one frame: handles `events` in order, with the pointer at
/// `mouse_pos` in a viewport of size `viewport`, then ends the frame.
/// Returns whether quitting was asked, which is when some event is a quit.
pub fn update(game: &mut Game, events: &Vec<Event>, mouse_pos: Point, viewport: Size) -> (r: bool)
    requires
        old(game).wf(),
        mouse_pos.x >= i32::MIN - CARD_MOUSE_X_OFFSET,
        viewport.width >= i32::MIN + RUN_BUTTON_WIDTH + 1,
        viewport.height >= i32::MIN + HAND_HEIGHT_OFFSET,
    ensures
        final(game).wf(),
        r == exists|j: int| 0 <= j < events.len() && is_quit(#[trigger] events[j]),
        exists|trace: Seq<Game>|
            frame_outcome(*old(game), *final(game), r, trace, events@, mouse_pos, viewport),
{
    let mut left_mouse_pressed = false;
    let mut left_mouse_released = false;
    let ghost mut trace: Seq<Game> = seq![*game];
    let mut i: usize = 0;
    while i < events.len()
        invariant
            game.wf(),
            mouse_pos.x >= i32::MIN - CARD_MOUSE_X_OFFSET,
            viewport.width >= i32::MIN + RUN_BUTTON_WIDTH + 1,
            viewport.height >= i32::MIN + HAND_HEIGHT_OFFSET,
            i <= events.len(),
            trace.len() == i + 1,
            trace[0] == *old(game),
            trace.last() == *game,
            replays(trace, events@, mouse_pos, viewport),
            forall|j: int| 0 <= j < i ==> !is_quit(#[trigger] events@[j]),
            left_mouse_pressed == exists|j: int|
                0 <= j < i && is_left_press(#[trigger] events@[j]),
            left_mouse_released == exists|j: int|
                0 <= j < i && is_left_release(#[trigger] events@[j]),
        decreases events.len() - i,
    {
        let event = events[i];
        match event {
            Event::KeyPressed { key: KeyCode::MouseLeft, .. } => {
                left_mouse_pressed = true;
            },
            Event::KeyReleased { key: KeyCode::MouseLeft, .. } => {
                left_mouse_released = true;
            },
            _ => {},
        }
        if handle_event(game, event, mouse_pos, viewport) {
            assert(frame_outcome(*old(game), *game, true, trace, events@, mouse_pos, viewport));
            return true;
        }
        proof {
            trace = trace.push(*game);
        }
        i = i + 1;
    }
    finish_frame(game, left_mouse_pressed, left_mouse_released, mouse_pos, viewport);
    assert(frame_outcome(*old(game), *game, false, trace, events@, mouse_pos, viewport));
    false
}

} // verus!