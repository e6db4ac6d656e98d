//! One tick of the panel: which button counts, what it does to the cursor
//! and the cache, what is to be drawn, and what is to go over the bus.
//!
//! The panel decides; the caller acts. A tick hands back the drawing and the
//! bus operations in the order in which they are due, and the caller feeds
//! the replies of the reads back in. What the bus did with a write has no way
//! into the panel's state, so a failed write can neither hold the cursor in
//! its edit nor keep the next refresh from happening.

use vstd::prelude::*;
use vstd::slice::{slice_subrange, slice_to_vec};
use embedded_graphics::primitives::Rectangle;
use crate::cache::{Device, Position, ROW_CURRENT, ROW_TEMPERATURE, ROW_VOLTAGE};
use crate::geometry::{area_at, cell_area, pixel_of, translate_point};
use crate::navigation::{above, below, left_of, on_grid, right_of, Mode, Navigation};
use crate::protocol::{
    page_select, paged_for, register_read, word_write, Command, Format, Page, Transfer,
    TransferView, TPSC536C7,
};

verus! {

/// The five buttons of the panel.
#[derive(Clone, Copy, Debug, PartialEq, Eq, Structural)]
pub enum Button {
    Up,
    Down,
    Right,
    Left,
    Enter,
}

/// The button that counts when several are held: the first that is held,
/// in the order up, down, right, left, enter.
pub open spec fn first_asserted_spec(
    up: bool,
    down: bool,
    right: bool,
    left: bool,
    enter: bool,
) -> Option<Button> {
    if up {
        Some(Button::Up)
    } else if down {
        Some(Button::Down)
    } else if right {
        Some(Button::Right)
    } else if left {
        Some(Button::Left)
    } else if enter {
        Some(Button::Enter)
    } else {
        None
    }
}

/// Picks the one button that a tick acts on.
pub fn first_asserted(up: bool, down: bool, right: bool, left: bool, enter: bool) -> (button:
    Option<Button>)
    ensures
        button == first_asserted_spec(up, down, right, left, enter),
{
    if up {
        Some(Button::Up)
    } else if down {
        Some(Button::Down)
    } else if right {
        Some(Button::Right)
    } else if left {
        Some(Button::Left)
    } else if enter {
        Some(Button::Enter)
    } else {
        None
    }
}

/// The small and the large edit step of a row, in thousandths: 0.005 and
/// 0.1 for a voltage, 1 and 10 for a current, nothing elsewhere.
pub open spec fn step_sizes_spec(row: int) -> (i64, i64) {
    if row == ROW_VOLTAGE {
        (5, 100)
    } else if row == ROW_CURRENT {
        (1000, 10000)
    } else {
        (0, 0)
    }
}

/// The small and the large edit step of a row.
pub fn step_sizes(row: i32) -> (steps: (i64, i64))
    ensures
        steps == step_sizes_spec(row as int),
{
    if row == ROW_VOLTAGE {
        (5, 100)
    } else if row == ROW_CURRENT {
        (1000, 10000)
    } else {
        (0, 0)
    }
}

/// A sum held inside what a quantity can be.
pub open spec fn bounded(sum: int) -> i64 {
    if sum > i64::MAX {
        i64::MAX
    } else if sum < i64::MIN {
        i64::MIN
    } else {
        sum as i64
    }
}

/// Moves a value by a step, stopping at the ends of what a quantity can be.
pub fn nudge(val: i64, step: i64) -> (moved: i64)
    ensures
        moved == bounded(val + step),
{
    if step >= 0 {
        if val > i64::MAX - step {
            i64::MAX
        } else {
            val + step
        }
    } else {
        if val < i64::MIN - step {
            i64::MIN
        } else {
            val + step
        }
    }
}

/// The steps that a button moves an edited value by: up and down by the
/// small step of the row, right and left by the large one.
pub open spec fn nudge_of(button: Button, row: int) -> int {
    match button {
        Button::Up => step_sizes_spec(row).0 as int,
        Button::Down => -(step_sizes_spec(row).0 as int),
        Button::Right => step_sizes_spec(row).1 as int,
        Button::Left => -(step_sizes_spec(row).1 as int),
        Button::Enter => 0,
    }
}

/// The mathematical views of a list of bus operations.
pub open spec fn views(plan: Seq<Transfer>) -> Seq<TransferView> {
    plan.map_values(|t: Transfer| t@)
}

/// The setting behind a row of the grid: its register and its wire format.
pub open spec fn setting_of(row: int) -> Option<(u8, Format)> {
    if row == ROW_VOLTAGE {
        Some((Command::VOUTCommand.address(), Format::Linear16))
    } else if row == ROW_CURRENT {
        Some((Command::IoutOCFaultLimit.address(), Format::Linear11))
    } else {
        None
    }
}

/// What goes over the bus when a value is committed at a cell: the cell's
/// channel is paged in, then the cell's setting is written. A cell outside
/// the two columns pages nothing in, one on a row without a setting writes
/// nothing.
pub open spec fn commit_plan_spec(address: u8, point: Position, val: i64) -> Seq<TransferView> {
    let paging = match Page::of_channel_spec(point.0 as int) {
        Some(page) => seq![page_select(address, page)],
        None => seq![],
    };
    let writing = match setting_of(point.1 as int) {
        Some((register, format)) => seq![
            word_write(address, register, format.encode_spec(val as int)),
        ],
        None => seq![],
    };
    paging + writing
}

/// The bus operations for a committed value.
pub fn commit_plan(controller: &TPSC536C7, point: Position, val: i64) -> (plan: Vec<Transfer>)
    ensures
        views(plan@) == commit_plan_spec(controller.address_spec(), point, val),
{
    let mut plan: Vec<Transfer> = Vec::new();
    match Page::of_channel(point.0) {
        Some(page) => {
            plan.push(controller.page(page));
        },
        None => {},
    }
    if point.1 == ROW_VOLTAGE {
        plan.push(controller.vout_command().write(val));
    } else if point.1 == ROW_CURRENT {
        plan.push(controller.iout_oc_fault_limit().write(val));
    }
    assert(views(plan@) =~= commit_plan_spec(controller.address_spec(), point, val));
    plan
}

/// What goes over the bus to refresh a channel: five reads, each behind a
/// page select of its own, since anything may have paged another channel
/// in between. The reads are voltage, temperature, current, voltage
/// setpoint, current limit. A selector that names no channel reads nothing.
pub open spec fn refresh_plan_spec(address: u8, channel: int) -> Seq<TransferView> {
    match Page::of_channel_spec(channel) {
        Some(page) => seq![
            page_select(address, page),
            register_read(address, Command::ReadVout.address(), 2),
            page_select(address, page),
            register_read(address, Command::ReadTemperature1.address(), 2),
            page_select(address, page),
            register_read(address, Command::ReadIout.address(), 2),
            page_select(address, page),
            register_read(address, Command::VOUTCommand.address(), 2),
            page_select(address, page),
            register_read(address, Command::IoutOCFaultLimit.address(), 2),
        ],
        None => seq![],
    }
}

/// The bus operations that refresh a channel.
pub fn refresh_plan(controller: &TPSC536C7, channel: i32) -> (plan: Vec<Transfer>)
    ensures
        views(plan@) == refresh_plan_spec(controller.address_spec(), channel as int),
{
    let mut plan: Vec<Transfer> = Vec::new();
    match Page::of_channel(channel) {
        Some(page) => {
            plan.push(controller.page(page));
            plan.push(controller.read_vout().read());
            plan.push(controller.page(page));
            plan.push(controller.read_temperature_1().read());
            plan.push(controller.page(page));
            plan.push(controller.read_iout().read());
            plan.push(controller.page(page));
            plan.push(controller.vout_command().read());
            plan.push(controller.page(page));
            plan.push(controller.iout_oc_fault_limit().read());
        },
        None => {},
    }
    assert(views(plan@) =~= refresh_plan_spec(controller.address_spec(), channel as int));
    plan
}

/// The upper voltage bound that both channels are given when the panel
/// starts, in thousandths of a volt.
pub const STARTUP_VOUT_MAX: i64 = 1500;

/// The on/off configuration that both channels are given when the panel
/// starts: the output follows no pin and no command, it is simply on.
pub const STARTUP_ON_OFF_CONFIG: u8 = 0x00;

/// What one channel is sent when the panel starts: its page select, its
/// on/off configuration, its upper voltage bound.
pub open spec fn enable_plan_spec(address: u8, page: Page) -> Seq<TransferView> {
    seq![
        page_select(address, page),
        TransferView::Write {
            address,
            payload: seq![Command::OnOffConfig.address(), STARTUP_ON_OFF_CONFIG],
        },
        word_write(
            address,
            Command::VOUTMax.address(),
            Format::Linear16.encode_spec(STARTUP_VOUT_MAX as int),
        ),
    ]
}

/// What the regulator is sent when the panel starts, after the first
/// refresh: the memory channel is enabled and bounded, then the core
/// channel.
pub open spec fn startup_plan_spec(address: u8) -> Seq<TransferView> {
    enable_plan_spec(address, Page::ChannelB) + enable_plan_spec(address, Page::ChannelA)
}

/// The bus operations that enable both channels when the panel starts.
pub fn startup_plan(controller: &TPSC536C7) -> (plan: Vec<Transfer>)
    ensures
        views(plan@) == startup_plan_spec(controller.address_spec()),
{
    let mut plan: Vec<Transfer> = Vec::new();
    plan.push(controller.ch_b());
    plan.push(controller.on_off_config(STARTUP_ON_OFF_CONFIG));
    plan.push(controller.vout_max().write(STARTUP_VOUT_MAX));
    plan.push(controller.ch_a());
    plan.push(controller.on_off_config(STARTUP_ON_OFF_CONFIG));
    plan.push(controller.vout_max().write(STARTUP_VOUT_MAX));
    assert(views(plan@) =~= startup_plan_spec(controller.address_spec()));
    plan
}

/// What a frame from the host asks of the bus. The first byte's lowest bit
/// names the channel, which is paged in; its second bit names the
/// operation. Zero there is a write: the rest of the frame goes to the
/// regulator as it is. One there is a read, which does nothing further. An
/// empty frame asks for nothing.
pub open spec fn host_plan_spec(address: u8, frame: Seq<u8>) -> Seq<TransferView> {
    if frame.len() == 0 {
        seq![]
    } else {
        let page = if frame[0] % 2 == 0 {
            Page::ChannelA
        } else {
            Page::ChannelB
        };
        if (frame[0] / 2) % 2 == 0 {
            seq![
                page_select(address, page),
                TransferView::Write { address, payload: frame.subrange(1, frame.len() as int) },
            ]
        } else {
            seq![page_select(address, page)]
        }
    }
}

/// The bus operations for a frame from the host.
pub fn host_command(controller: &TPSC536C7, frame: &[u8]) -> (plan: Vec<Transfer>)
    ensures
        views(plan@) == host_plan_spec(controller.address_spec(), frame@),
{
    let mut plan: Vec<Transfer> = Vec::new();
    if frame.len() > 0 {
        let head: u8 = frame[0];
        if head % 2 == 0 {
            plan.push(controller.ch_a());
        } else {
            plan.push(controller.ch_b());
        }
        if (head / 2) % 2 == 0 {
            plan.push(controller.command(slice_subrange(frame, 1, frame.len())));
        }
    }
    assert(views(plan@) =~= host_plan_spec(controller.address_spec(), frame@));
    plan
}

/// One thing to put on the display.
#[derive(Clone, Copy, Debug, PartialEq, Eq)]
pub enum Draw {
    /// A value in a cell: the cell is filled, and the value written from its
    /// top left corner. `inverted` for the value that is being edited.
    Value { area: Rectangle, value: i64, inverted: bool },
    /// A frame around a cell.
    Outline { area: Rectangle },
}

/// How many characters of a value a cell shows.
pub const CELL_CHARS: usize = 5;

/// How many characters of a value of `written` characters a cell shows.
pub fn visible_chars(written: usize) -> (shown: usize)
    ensures
        shown == (if written > CELL_CHARS { CELL_CHARS } else { written }),
{
    if written > CELL_CHARS {
        CELL_CHARS
    } else {
        written
    }
}

/// The state of the panel as a mathematical value.
pub struct PanelView {
    /// Where the cursor is.
    pub position: Position,
    /// What the cursor is doing.
    pub mode: Mode,
    /// The cache of the regulator's values.
    pub dev: Device,
    /// The value of the edit in progress.
    pub scratch: i64,
}

/// The panel after a tick on which `button` counted.
///
/// While browsing, a direction moves the cursor one cell and stops at the
/// edges; enter starts an edit of the cell under the cursor from the cell's
/// cached setting, except on the temperature row, where it does nothing.
/// While editing, a direction moves the value by a step of the row; enter
/// commits the value to the cache and goes back to browsing. No button, no
/// change.
pub open spec fn step_spec(state: PanelView, button: Option<Button>) -> PanelView {
    match button {
        None => state,
        Some(pressed) => match state.mode {
            Mode::Navigation => match pressed {
                Button::Up => PanelView { position: above(state.position), ..state },
                Button::Down => PanelView { position: below(state.position), ..state },
                Button::Right => PanelView { position: right_of(state.position), ..state },
                Button::Left => PanelView { position: left_of(state.position), ..state },
                Button::Enter => if state.position.1 < ROW_TEMPERATURE {
                    PanelView {
                        mode: Mode::Update,
                        scratch: state.dev.seed(state.position),
                        ..state
                    }
                } else {
                    state
                },
            },
            Mode::Update => match pressed {
                Button::Enter => PanelView {
                    mode: Mode::Navigation,
                    dev: state.dev.stored(state.position, state.scratch),
                    ..state
                },
                _ => PanelView {
                    scratch: bounded(state.scratch + nudge_of(pressed, state.position.1 as int)),
                    ..state
                },
            },
        },
    }
}

/// Whether a button commits the edit in progress.
pub open spec fn commits(state: PanelView, button: Option<Button>) -> bool {
    state.mode == Mode::Update && button == Some(Button::Enter)
}

/// The writes that a tick owes the regulator: those of the committed value
/// when the button committed one, none otherwise.
pub open spec fn writes_spec(address: u8, state: PanelView, button: Option<Button>) -> Seq<
    TransferView,
> {
    if commits(state, button) {
        commit_plan_spec(address, state.position, state.scratch)
    } else {
        seq![]
    }
}

/// The area of a cell of the grid.
pub open spec fn cell_of(point: Position) -> Rectangle {
    area_at(pixel_of(point))
}

/// A measured value in its cell of the grid.
pub fn measured(point: Position, value: i64) -> (draw: Draw)
    requires
        on_grid(point),
    ensures
        draw == (Draw::Value { area: cell_of(point), value, inverted: false }),
{
    Draw::Value { area: cell_area(translate_point(point)), value, inverted: false }
}

/// What a tick draws: the measured voltage, current and temperature of the
/// core channel, then those of the memory channel, each in its cell, and
/// last the cursor: a frame around its cell while browsing, the edited value
/// inverted in its cell while editing.
pub open spec fn render_spec(state: PanelView) -> Seq<Draw> {
    seq![
        Draw::Value { area: cell_of((0, 0)), value: state.dev.core.voltage, inverted: false },
        Draw::Value { area: cell_of((0, 1)), value: state.dev.core.current, inverted: false },
        Draw::Value { area: cell_of((0, 2)), value: state.dev.core.temperature, inverted: false },
        Draw::Value { area: cell_of((1, 0)), value: state.dev.mem.voltage, inverted: false },
        Draw::Value { area: cell_of((1, 1)), value: state.dev.mem.current, inverted: false },
        Draw::Value { area: cell_of((1, 2)), value: state.dev.mem.temperature, inverted: false },
        match state.mode {
            Mode::Navigation => Draw::Outline { area: cell_of(state.position) },
            Mode::Update => Draw::Value {
                area: cell_of(state.position),
                value: state.scratch,
                inverted: true,
            },
        },
    ]
}

/// What a tick owes the bus, in order: the refresh of the core channel, the
/// refresh of the memory channel, then the writes of a value that the tick
/// committed.
pub open spec fn tick_plan_spec(address: u8, state: PanelView, button: Option<Button>) -> Seq<
    TransferView,
> {
    refresh_plan_spec(address, 0) + refresh_plan_spec(address, 1) + writes_spec(
        address,
        state,
        button,
    )
}

/// What one tick asks of the caller.
#[derive(Clone, Debug, PartialEq, Eq)]
pub struct Tick {
    /// What to draw, in order, before the display is flushed.
    pub draws: Vec<Draw>,
    /// What to do on the bus, in order. The replies to the first five reads
    /// belong to the core channel, those to the next five to the memory
    /// channel.
    pub transfers: Vec<Transfer>,
}

/// The panel: the cursor, the cache, and the value of the edit in progress.
#[derive(Clone, Copy, Debug, PartialEq, Eq)]
pub struct Panel {
    nav: Navigation,
    dev: Device,
    scratch: i64,
}

impl View for Panel {
    type V = PanelView;

    closed spec fn view(&self) -> PanelView {
        PanelView {
            position: self.nav.position(),
            mode: self.nav.mode(),
            dev: self.dev,
            scratch: self.scratch,
        }
    }
}

impl Panel {
    #[verifier::type_invariant]
    closed spec fn wf(self) -> bool {
        self.nav.mode() == Mode::Update ==> self.nav.position().1 < ROW_TEMPERATURE
    }

    /// The panel as it starts: browsing on the top left cell, nothing known
    /// of the regulator, no edit in progress.
    pub fn new() -> (panel: Panel)
        ensures
            panel@ == (PanelView {
                position: (0, 0),
                mode: Mode::Navigation,
                dev: Device::default_spec(),
                scratch: 0,
            }),
    {
        Panel { nav: Navigation::default(), dev: Device::default(), scratch: 0 }
    }

    /// The cursor.
    pub fn navigation(&self) -> (nav: &Navigation)
        ensures
            nav.position() == self@.position,
            nav.mode() == self@.mode,
            on_grid(self@.position),
            self@.mode == Mode::Update ==> self@.position.1 < ROW_TEMPERATURE,
    {
        proof {
            use_type_invariant(self);
        }
        let _ = self.nav.get_position();
        &self.nav
    }

    /// The cache.
    pub fn device(&self) -> (dev: &Device)
        ensures
            *dev == self@.dev,
    {
        &self.dev
    }

    /// Replaces the cache.
    pub fn set_device(&mut self, dev: Device)
        ensures
            final(self)@ == (PanelView { dev, ..old(self)@ }),
    {
        proof {
            use_type_invariant(&*self);
        }
        self.dev = dev;
    }

    /// The value of the edit in progress; while browsing, that of the last
    /// edit.
    pub fn scratch(&self) -> (val: i64)
        ensures
            val == self@.scratch,
    {
        self.scratch
    }

    /// Acts on the button of a tick, and hands back the writes that the
    /// regulator is owed for it.
    pub fn press(&mut self, button: Option<Button>, controller: &TPSC536C7) -> (writes: Vec<
        Transfer,
    >)
        ensures
            final(self)@ == step_spec(old(self)@, button),
            views(writes@) == writes_spec(controller.address_spec(), old(self)@, button),
    {
        proof {
            use_type_invariant(&*self);
        }
        let mut nav: Navigation = self.nav;
        let mut dev: Device = self.dev;
        let position = nav.get_position();
        let pressed = match button {
            Some(pressed) => pressed,
            None => {
                let writes: Vec<Transfer> = Vec::new();
                assert(views(writes@) =~= Seq::<TransferView>::empty());
                return writes;
            },
        };
        match *nav.get_mode() {
            Mode::Navigation => {
                match pressed {
                    Button::Up => nav.move_up(),
                    Button::Down => nav.move_down(),
                    Button::Right => nav.move_right(),
                    Button::Left => nav.move_left(),
                    Button::Enter => {
                        if position.1 < ROW_TEMPERATURE {
                            nav.change_mode();
                            self.scratch = dev.seed_value(position);
                        }
                    },
                }
                self.nav = nav;
                let writes: Vec<Transfer> = Vec::new();
                assert(views(writes@) =~= Seq::<TransferView>::empty());
                writes
            },
            Mode::Update => {
                let (small, large) = step_sizes(position.1);
                match pressed {
                    Button::Up => self.scratch = nudge(self.scratch, small),
                    Button::Down => self.scratch = nudge(self.scratch, -small),
                    Button::Right => self.scratch = nudge(self.scratch, large),
                    Button::Left => self.scratch = nudge(self.scratch, -large),
                    Button::Enter => {
                        nav.change_mode();
                        dev.store_value(position, self.scratch);
                        self.nav = nav;
                        self.dev = dev;
                        return commit_plan(controller, position, self.scratch);
                    },
                }
                let writes: Vec<Transfer> = Vec::new();
                assert(views(writes@) =~= Seq::<TransferView>::empty());
                writes
            },
        }
    }

    /// What is to be drawn on this tick.
    pub fn render(&self) -> (draws: Vec<Draw>)
        ensures
            draws@ == render_spec(self@),
    {
        let cursor = cell_area(self.nav.get_point());
        let mut draws: Vec<Draw> = Vec::new();
        draws.push(measured((0, 0), self.dev.core.voltage));
        draws.push(measured((0, 1), self.dev.core.current));
        draws.push(measured((0, 2), self.dev.core.temperature));
        draws.push(measured((1, 0), self.dev.mem.voltage));
        draws.push(measured((1, 1), self.dev.mem.current));
        draws.push(measured((1, 2), self.dev.mem.temperature));
        match *self.nav.get_mode() {
            Mode::Navigation => draws.push(Draw::Outline { area: cursor }),
            Mode::Update => draws.push(
                Draw::Value { area: cursor, value: self.scratch, inverted: true },
            ),
        }
        assert(draws@ =~= render_spec(self@));
        draws
    }

    /// One tick of the panel: acts on the button that counts among those
    /// held, and hands back what is to be drawn and what is to go over the
    /// bus. Whatever was pressed, both channels are refreshed.
    pub fn tick(
        &mut self,
        controller: &TPSC536C7,
        up: bool,
        down: bool,
        right: bool,
        left: bool,
        enter: bool,
    ) -> (tick: Tick)
        ensures
            final(self)@ == step_spec(
                old(self)@,
                first_asserted_spec(up, down, right, left, enter),
            ),
            tick.draws@ == render_spec(final(self)@),
            views(tick.transfers@) == tick_plan_spec(
                controller.address_spec(),
                old(self)@,
                first_asserted_spec(up, down, right, left, enter),
            ),
    {
        let button = first_asserted(up, down, right, left, enter);
        let mut writes = self.press(button, controller);
        let draws = self.render();
        let mut transfers = refresh_plan(controller, 0);
        let mut second = refresh_plan(controller, 1);
        transfers.append(&mut second);
        transfers.append(&mut writes);
        assert(views(transfers@) =~= tick_plan_spec(
            controller.address_spec(),
            old(self)@,
            button,
        ));
        Tick { draws, transfers }
    }

    /// Takes in the replies to the reads of a channel's refresh.
    pub fn absorb(&mut self, channel: i32, replies: &[[u8; 2]; 5])
        ensures
            final(self)@ == (PanelView {
                dev: old(self)@.dev.refreshed(channel as int, *replies),
                ..old(self)@
            }),
    {
        proof {
            use_type_invariant(&*self);
        }
        let mut dev: Device = self.dev;
        dev.refresh(channel, replies);
        self.dev = dev;
    }
}

/// The panel after a run of ticks, the button of each given in order.
pub open spec fn run_spec(state: PanelView, buttons: Seq<Option<Button>>) -> PanelView
    decreases buttons.len(),
{
    if buttons.len() == 0 {
        state
    } else {
        step_spec(run_spec(state, buttons.drop_last()), buttons.last())
    }
}

/// Whether a state is one that the panel can be in: the cursor on the grid,
/// and no edit on the temperature row.
pub open spec fn reachable(state: PanelView) -> bool {
    &&& on_grid(state.position)
    &&& state.mode == Mode::Update ==> state.position.1 < ROW_TEMPERATURE
}

/// A move from a cell of the grid ends on a cell of the grid, and a move
/// against an edge ends where it began.
pub proof fn lemma_moves_stay_on_grid(position: Position)
    requires
        on_grid(position),
    ensures
        on_grid(left_of(position)),
        on_grid(right_of(position)),
        on_grid(above(position)),
        on_grid(below(position)),
        position.0 == 0 ==> left_of(position) == position,
        position.0 == 1 ==> right_of(position) == position,
        position.1 == 0 ==> above(position) == position,
        position.1 == 2 ==> below(position) == position,
{
}

/// Whatever buttons are pressed, in whatever order, the cursor stays on the
/// grid and no edit is ever open on the temperature row.
pub proof fn lemma_cursor_stays_on_grid(state: PanelView, buttons: Seq<Option<Button>>)
    requires
        reachable(state),
    ensures
        reachable(run_spec(state, buttons)),
    decreases buttons.len(),
{
    if buttons.len() > 0 {
        lemma_cursor_stays_on_grid(state, buttons.drop_last());
    }
}

/// Enter on the temperature row, while browsing, changes nothing and owes
/// the regulator nothing.
pub proof fn lemma_enter_on_temperature_row(state: PanelView, address: u8)
    requires
        state.mode == Mode::Navigation,
        state.position.1 == ROW_TEMPERATURE,
    ensures
        step_spec(state, Some(Button::Enter)) == state,
        writes_spec(address, state, Some(Button::Enter)) == Seq::<TransferView>::empty(),
{
}

/// Enter on a cell of the two upper rows, while browsing, opens an edit
/// that starts from the cell's cached setting and touches nothing else.
pub proof fn lemma_enter_opens_edit(state: PanelView)
    requires
        state.mode == Mode::Navigation,
        on_grid(state.position),
        state.position.1 < ROW_TEMPERATURE,
    ensures
        step_spec(state, Some(Button::Enter)) == (PanelView {
            mode: Mode::Update,
            scratch: state.dev.seed(state.position),
            ..state
        }),
{
}

/// Enter while editing goes back to browsing and puts the edited value
/// into the cache at the cursor's cell: that cell's setting becomes the
/// value, every other setting and every measured value stays as it was.
pub proof fn lemma_enter_commits(state: PanelView, other: Position)
    requires
        state.mode == Mode::Update,
        reachable(state),
        on_grid(other),
        other != state.position,
    ensures
        ({
            let after = step_spec(state, Some(Button::Enter));
            &&& after.mode == Mode::Navigation
            &&& after.position == state.position
            &&& after.scratch == state.scratch
            &&& after.dev.seed(state.position) == state.scratch
            &&& after.dev.seed(other) == state.dev.seed(other)
            &&& after.dev.core.voltage == state.dev.core.voltage
            &&& after.dev.core.current == state.dev.core.current
            &&& after.dev.core.temperature == state.dev.core.temperature
            &&& after.dev.mem.voltage == state.dev.mem.voltage
            &&& after.dev.mem.current == state.dev.mem.current
            &&& after.dev.mem.temperature == state.dev.mem.temperature
        }),
{
}

/// Every bus operation of a channel's refresh comes directly behind the
/// select of that channel's page.
pub proof fn lemma_refresh_is_paged(address: u8, channel: int, page: Page)
    requires
        Page::of_channel_spec(channel) == Some(page),
    ensures
        paged_for(refresh_plan_spec(address, channel), address, page),
        refresh_plan_spec(address, channel).len() == 10,
        channel == 1 ==> page.bits() == 0x01,
{
}

/// The write of a committed value comes directly behind the select of the
/// page of the cell's column.
pub proof fn lemma_commit_is_paged(address: u8, point: Position, val: i64, page: Page)
    requires
        Page::of_channel_spec(point.0 as int) == Some(page),
    ensures
        paged_for(commit_plan_spec(address, point, val), address, page),
        point.0 == 1 ==> page.bits() == 0x01,
{
}

/// The write of a frame from the host comes directly behind the select of
/// the page that the frame's first byte names.
pub proof fn lemma_host_write_is_paged(address: u8, frame: Seq<u8>)
    requires
        frame.len() > 0,
    ensures
        paged_for(
            host_plan_spec(address, frame),
            address,
            if frame[0] % 2 == 0 {
                Page::ChannelA
            } else {
                Page::ChannelB
            },
        ),
{
}

} // verus!
