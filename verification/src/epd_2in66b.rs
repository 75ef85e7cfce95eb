//! The driver of the 2.66 inch panel with three colours, 152 by 296 pixels.
//!
//! The driver keeps the picture in two bit planes and knows the controller's protocol. It
//! does no input or output: what has to happen on the wires is queued in its transport, and
//! where the protocol waits for the panel, the driver is told each reading of the busy line
//! and says how to go on.
use crate::bitmap_buffer::{plane_pixel, plane_write, BitmapBuffer};
use crate::command::{
    data_entry_mode, data_entry_mode_of, display_update, display_update_of, x_address_range,
    x_address_range_of, y_address_counter, y_address_counter_of, y_address_range,
    y_address_range_of, DataEntryRow, DataEntrySign, DeepSleep, OutputSource,
    ThreeColorEpdCommand, WriteMode,
};
use crate::display_orientation::{in_grid, DisplayOrientation};
use crate::epd_spi::{cmd_data_signals, cmd_signals, hw_reset_signals, signals_of, BusOp, EpdSpi, Signal};
use crate::geometry::{Pixel, Point, Rectangle, Size};
use crate::three_color::ThreeColor;
use vstd::prelude::*;

verus! {

/// The panel's width in pixels.
pub const WIDTH: usize = 152;

/// The panel's height in pixels.
pub const HEIGHT: usize = 296;

/// The number of bytes of one bit plane of the panel.
pub const BUFFER_SIZE: usize = 5624;

/// How long to sleep between two readings of the busy line, in milliseconds.
pub const POLL_INTERVAL_MS: u64 = 10;

/// How long to leave the panel alone after the activation command, in milliseconds.
pub const ACTIVATION_DELAY_MS: u64 = 20;

/// What the driver knows of the state of the panel.
#[derive(Clone, Copy, PartialEq, Eq, Debug, Structural)]
pub enum Phase {
    /// The controller has not been configured since it was last reset or powered up.
    Uninitialized,
    /// The controller is configured and idle.
    Ready,
    /// The panel is applying the picture it was sent.
    Rendering,
    /// The controller is in deep sleep; only a hardware reset wakes it.
    Sleeping,
}

/// What the driver waits for the busy line to show.
#[derive(Clone, Copy, PartialEq, Eq, Debug, Structural)]
pub enum Wait {
    /// That the controller has come out of its software reset.
    Reset,
    /// That the panel has applied the picture.
    Refresh,
}

/// How to go on after a reading of the busy line.
#[derive(Clone, Copy, PartialEq, Eq, Debug, Structural)]
pub enum WaitStep {
    /// The panel is busy: sleep for so many milliseconds, then read the line again.
    Sleep(u64),
    /// There is nothing to wait for, or no longer: carry out what is queued.
    Done,
    /// The panel stayed busy for longer than the limit allows; the wait is given up.
    TimedOut,
}

/// The driver as a mathematical value.
pub struct Panel {
    pub orientation: DisplayOrientation,
    /// The black/white plane: a set bit is a white pixel.
    pub bw: Seq<u8>,
    /// The chromatic plane: a set bit is a pixel with chromatic ink.
    pub chromatic: Seq<u8>,
    pub phase: Phase,
    /// What the driver waits for, if anything.
    pub waiting: Option<Wait>,
    /// How many more sleeps the present wait may take; `None` is any number.
    pub polls_left: Option<u32>,
    /// How many sleeps a wait may take; `None` is any number.
    pub poll_limit: Option<u32>,
    /// What is queued for the wires, oldest first.
    pub queue: Seq<Signal>,
}

/// The black/white plane of the backdrop: every pixel white.
pub open spec fn backdrop_bw() -> Seq<u8> {
    Seq::new(5624, |i: int| 0xffu8)
}

/// The chromatic plane of the backdrop: no ink anywhere.
pub open spec fn backdrop_chromatic() -> Seq<u8> {
    Seq::new(5624, |i: int| 0x00u8)
}

/// Setting the address counters: X as one byte, then Y with its low byte first.
pub open spec fn cursor_signals(x: u8, y: u16) -> Seq<Signal> {
    cmd_data_signals(ThreeColorEpdCommand::SetXAddressCounter.opcode(), seq![x])
        + cmd_data_signals(
        ThreeColorEpdCommand::SetYAddressCounter.opcode(),
        y_address_counter_of(y as int),
    )
}

/// Setting the window that data are written to: the range of X, then the range of Y.
pub open spec fn window_signals(x_start: int, x_end: int, y_start: int, y_end: int) -> Seq<
    Signal,
> {
    cmd_data_signals(
        ThreeColorEpdCommand::SetXAddressRange.opcode(),
        x_address_range_of(x_start, x_end),
    ) + cmd_data_signals(
        ThreeColorEpdCommand::SetYAddressRange.opcode(),
        y_address_range_of(y_start, y_end),
    )
}

/// The first part of initialisation: a hardware reset, then the software reset command.
pub open spec fn reset_signals() -> Seq<Signal> {
    hw_reset_signals() + cmd_signals(ThreeColorEpdCommand::Reset.opcode())
}

/// The second part of initialisation, sent once the controller is out of its reset: data
/// come row by row with X and Y growing, both memories are read as they are, the border
/// source lines are left out, and the window is the whole panel.
pub open spec fn configure_signals() -> Seq<Signal> {
    cmd_data_signals(
        ThreeColorEpdCommand::DataEntryMode.opcode(),
        data_entry_mode_of(DataEntryRow::XMinor, DataEntrySign::IncYIncX),
    ) + cmd_data_signals(
        ThreeColorEpdCommand::DisplayUpdateControl1.opcode(),
        display_update_of(WriteMode::Normal, WriteMode::Normal, OutputSource::S8ToS167),
    ) + window_signals(0, 151, 0, 295)
}

/// Sending the picture: each plane is written from the origin, the black/white plane first,
/// then the panel is told to apply them and is left alone for a moment.
pub open spec fn refresh_signals(bw: Seq<u8>, chromatic: Seq<u8>) -> Seq<Signal> {
    cursor_signals(0, 0) + cmd_data_signals(ThreeColorEpdCommand::WriteBlackWhiteRAM.opcode(), bw)
        + cursor_signals(0, 0) + cmd_data_signals(
        ThreeColorEpdCommand::WriteChromaticRAM.opcode(),
        chromatic,
    ) + cmd_signals(ThreeColorEpdCommand::MasterActivation.opcode()) + seq![Signal::Delay(20)]
}

/// Sending the controller into the deep sleep in which it loses its memories.
pub open spec fn sleep_signals() -> Seq<Signal> {
    cmd_data_signals(
        ThreeColorEpdCommand::DeepSleepMode.opcode(),
        seq![DeepSleep::SleepLosingRAM.bits()],
    )
}

impl Panel {
    /// Both planes have the panel's size.
    pub open spec fn wf(self) -> bool {
        self.bw.len() == 5624 && self.chromatic.len() == 5624
    }

    /// A driver as it is made: the picture lies on its side and shows the backdrop, the panel
    /// is not initialised, nothing is queued or waited for, and waits have no limit.
    pub open spec fn fresh() -> Panel {
        Panel {
            orientation: DisplayOrientation::Landscape,
            bw: backdrop_bw(),
            chromatic: backdrop_chromatic(),
            phase: Phase::Uninitialized,
            waiting: None,
            polls_left: None,
            poll_limit: None,
            queue: Seq::empty(),
        }
    }

    /// The width of the picture.
    pub open spec fn width(self) -> int {
        self.orientation.logical_width(152, 296)
    }

    /// The height of the picture.
    pub open spec fn height(self) -> int {
        self.orientation.logical_height(152, 296)
    }

    /// The panel's pixel that a logical point stands for, if it stands for one.
    pub open spec fn physical(self, point: Point) -> Option<(int, int)> {
        let (x, y) = self.orientation.transform(152, 296, point.x as int, point.y as int);
        if in_grid(152, 296, x, y) {
            Some((x, y))
        } else {
            None
        }
    }

    /// The physical point of a logical point, where both its coordinates can be written down
    /// in 32 bits.
    pub open spec fn convert_point(self, point: Point) -> Option<Point> {
        let (x, y) = self.orientation.transform(152, 296, point.x as int, point.y as int);
        if i32::MIN <= x <= i32::MAX && i32::MIN <= y <= i32::MAX {
            Some(Point { x: x as i32, y: y as i32 })
        } else {
            None
        }
    }

    /// The colour that the panel's pixel `(x, y)` has in the picture.
    pub open spec fn color_at(self, x: int, y: int) -> Option<ThreeColor> {
        ThreeColor::of_bits(plane_pixel(self.bw, 152, x, y), plane_pixel(self.chromatic, 152, x, y))
    }

    /// The picture is the backdrop again.
    pub open spec fn clear(self) -> Panel {
        Panel { bw: backdrop_bw(), chromatic: backdrop_chromatic(), ..self }
    }

    /// The picture is turned to `orientation`.
    pub open spec fn set_orientation(self, orientation: DisplayOrientation) -> Panel {
        Panel { orientation, ..self }
    }

    /// Waits that begin from now on may take `limit` sleeps.
    pub open spec fn set_poll_limit(self, limit: Option<u32>) -> Panel {
        Panel { poll_limit: limit, ..self }
    }

    /// One pixel is drawn: where its point stands for a pixel of the panel, that pixel gets
    /// the two bits of the colour; where it stands for none, nothing changes.
    pub open spec fn draw(self, pixel: Pixel) -> Panel {
        match self.physical(pixel.0) {
            Some((x, y)) => Panel {
                bw: plane_write(self.bw, 152, x, y, pixel.1.bw_bit()),
                chromatic: plane_write(self.chromatic, 152, x, y, pixel.1.chromatic_bit()),
                ..self
            },
            None => self,
        }
    }

    /// The pixels are drawn one after the other.
    pub open spec fn draw_all(self, pixels: Seq<Pixel>) -> Panel
        decreases pixels.len(),
    {
        if pixels.len() == 0 {
            self
        } else {
            self.draw_all(pixels.drop_last()).draw(pixels.last())
        }
    }

    /// More is queued for the wires.
    pub open spec fn send(self, signals: Seq<Signal>) -> Panel {
        Panel { queue: self.queue + signals, ..self }
    }

    /// The queue is handed out.
    pub open spec fn take(self) -> Panel {
        Panel { queue: Seq::empty(), ..self }
    }

    /// A wait begins, with the number of sleeps that the limit allows.
    pub open spec fn wait_for(self, wait: Wait) -> Panel {
        Panel { waiting: Some(wait), polls_left: self.poll_limit, ..self }
    }

    /// The wait, if there is one, is over.
    pub open spec fn stop_waiting(self) -> Panel {
        Panel { waiting: None, polls_left: None, ..self }
    }

    /// Initialisation begins, unless the driver is waiting: the resets are queued, the panel
    /// counts as not initialised, and the driver waits for the controller to come out of
    /// its reset.
    pub open spec fn init(self) -> Panel {
        if self.waiting is Some {
            self
        } else {
            Panel { phase: Phase::Uninitialized, ..self.send(reset_signals()).wait_for(Wait::Reset) }
        }
    }

    /// A refresh begins, unless the driver is waiting: the picture is queued, a panel that was
    /// ready counts as rendering, and the driver waits for the panel to apply the picture.
    pub open spec fn refresh(self) -> Panel {
        if self.waiting is Some {
            self
        } else {
            Panel {
                phase: if self.phase == Phase::Ready {
                    Phase::Rendering
                } else {
                    self.phase
                },
                ..self.send(refresh_signals(self.bw, self.chromatic)).wait_for(Wait::Refresh)
            }
        }
    }

    /// The panel is sent to sleep, unless the driver is waiting: the command is queued, and a
    /// panel that was ready counts as sleeping.
    pub open spec fn sleep(self) -> Panel {
        if self.waiting is Some {
            self
        } else {
            Panel {
                phase: if self.phase == Phase::Ready {
                    Phase::Sleeping
                } else {
                    self.phase
                },
                ..self.send(sleep_signals())
            }
        }
    }

    /// The address counters are set, unless the driver is waiting.
    pub open spec fn set_cursor(self, x: u8, y: u16) -> Panel {
        if self.waiting is Some {
            self
        } else {
            self.send(cursor_signals(x, y))
        }
    }

    /// The wait is over because the busy line was found clear: after a reset the controller
    /// is configured and the panel is ready; after a refresh a panel that was rendering is
    /// ready again.
    pub open spec fn resume(self, wait: Wait) -> Panel {
        match wait {
            Wait::Reset => Panel {
                phase: Phase::Ready,
                ..self.stop_waiting().send(configure_signals())
            },
            Wait::Refresh => Panel {
                phase: if self.phase == Phase::Rendering {
                    Phase::Ready
                } else {
                    self.phase
                },
                ..self.stop_waiting()
            },
        }
    }

    /// The driver is told a reading of the busy line: `Some` of the level read (high is busy)
    /// or `None` where the line could not be read, which counts as not busy.
    ///
    /// Where the driver waits for nothing, nothing changes. Where the line is not busy, the
    /// wait is over. Where it is busy, the driver asks for a sleep and another reading, as
    /// long as the present wait has sleeps left; with none left it gives the wait up and
    /// leaves the phase as it is.
    pub open spec fn poll_busy(self, reading: Option<bool>) -> (Panel, WaitStep) {
        match self.waiting {
            None => (self, WaitStep::Done),
            Some(wait) => if reading == Some(true) {
                match self.polls_left {
                    None => (self, WaitStep::Sleep(10)),
                    Some(left) => if left == 0 {
                        (self.stop_waiting(), WaitStep::TimedOut)
                    } else {
                        (
                            Panel { polls_left: Some((left - 1) as u32), ..self },
                            WaitStep::Sleep(10),
                        )
                    },
                }
            } else {
                (self.resume(wait), WaitStep::Done)
            },
        }
    }

    /// The driver after `count` readings in a row that found the busy line high.
    pub open spec fn after_busy(self, count: nat) -> Panel
        decreases count,
    {
        if count == 0 {
            self
        } else {
            self.after_busy((count - 1) as nat).poll_busy(Some(true)).0
        }
    }
}

/// The driver of the panel.
pub struct Epd2in66b {
    epd: EpdSpi,
    orientation: DisplayOrientation,
    bw_buffer: BitmapBuffer<WIDTH, HEIGHT, BUFFER_SIZE>,
    chromatic_buffer: BitmapBuffer<WIDTH, HEIGHT, BUFFER_SIZE>,
    phase: Phase,
    waiting: Option<Wait>,
    polls_left: Option<u32>,
    poll_limit: Option<u32>,
}

impl View for Epd2in66b {
    type V = Panel;

    closed spec fn view(&self) -> Panel {
        Panel {
            orientation: self.orientation,
            bw: self.bw_buffer@,
            chromatic: self.chromatic_buffer@,
            phase: self.phase,
            waiting: self.waiting,
            polls_left: self.polls_left,
            poll_limit: self.poll_limit,
            queue: self.epd@,
        }
    }
}

// public API

impl Epd2in66b {
    /// A driver for a panel that has not been initialised.
    pub fn new() -> (display: Self)
        ensures
            display@ == Panel::fresh(),
    {
        let epd = EpdSpi::new();
        let bw_buffer = BitmapBuffer::<WIDTH, HEIGHT, BUFFER_SIZE>::new();
        let chromatic_buffer = BitmapBuffer::<WIDTH, HEIGHT, BUFFER_SIZE>::new();
        let orientation = DisplayOrientation::Landscape;
        let mut display = Epd2in66b {
            epd,
            orientation,
            bw_buffer,
            chromatic_buffer,
            phase: Phase::Uninitialized,
            waiting: None,
            polls_left: None,
            poll_limit: None,
        };
        display.clear();
        display
    }

    /// The planes of every driver have the panel's size.
    pub proof fn lemma_wf(&self)
        ensures
            self@.wf(),
    {
    }

    /// The width of the picture in pixels.
    pub fn width(&self) -> (width: usize)
        ensures
            width == self@.width(),
    {
        match self.orientation {
            DisplayOrientation::Portrait => WIDTH,
            DisplayOrientation::Landscape => HEIGHT,
            DisplayOrientation::PortraitFlipped => WIDTH,
            DisplayOrientation::LandscapeFlipped => HEIGHT,
        }
    }

    /// The height of the picture in pixels.
    pub fn height(&self) -> (height: usize)
        ensures
            height == self@.height(),
    {
        match self.orientation {
            DisplayOrientation::Portrait => HEIGHT,
            DisplayOrientation::Landscape => WIDTH,
            DisplayOrientation::PortraitFlipped => HEIGHT,
            DisplayOrientation::LandscapeFlipped => WIDTH,
        }
    }

    /// Makes the picture the backdrop again. Nothing is sent to the panel.
    pub fn clear(&mut self)
        ensures
            final(self)@ == old(self)@.clear(),
    {
        self.bw_buffer.fill(0xff);
        self.chromatic_buffer.fill(0x0);
    }

    /// Turns the picture. What is drawn already stays where it is on the panel.
    pub fn set_orientation(&mut self, orientation: DisplayOrientation)
        ensures
            final(self)@ == old(self)@.set_orientation(orientation),
    {
        self.orientation = orientation;
    }

    /// Sets how many sleeps a wait for the panel may take before it is given up; `None` lets
    /// it take any number. A wait that has begun keeps the limit it began with.
    pub fn set_poll_limit(&mut self, limit: Option<u32>)
        ensures
            final(self)@ == old(self)@.set_poll_limit(limit),
    {
        self.poll_limit = limit;
    }

    /// How the picture is turned.
    pub fn orientation(&self) -> (orientation: DisplayOrientation)
        ensures
            orientation == self@.orientation,
    {
        self.orientation
    }

    /// What the driver knows of the state of the panel.
    pub fn phase(&self) -> (phase: Phase)
        ensures
            phase == self@.phase,
    {
        self.phase
    }

    /// Whether the driver waits for the busy line to clear.
    pub fn is_waiting(&self) -> (waiting: bool)
        ensures
            waiting == (self@.waiting is Some),
    {
        self.waiting.is_some()
    }

    /// The black/white plane of the picture.
    pub fn bw_buffer(&self) -> (plane: &BitmapBuffer<WIDTH, HEIGHT, BUFFER_SIZE>)
        ensures
            plane@ == self@.bw,
    {
        &self.bw_buffer
    }

    /// The chromatic plane of the picture.
    pub fn chromatic_buffer(&self) -> (plane: &BitmapBuffer<WIDTH, HEIGHT, BUFFER_SIZE>)
        ensures
            plane@ == self@.chromatic,
    {
        &self.chromatic_buffer
    }

    /// Hands out what is queued for the wires, oldest first, and leaves the queue empty.
    pub fn take_ops(&mut self) -> (ops: Vec<BusOp>)
        ensures
            signals_of(ops@) == old(self)@.queue,
            final(self)@ == old(self)@.take(),
    {
        self.epd.take()
    }

    /// Begins the initialisation of the panel. See `Panel::init`; the wait that follows is
    /// ended by `poll_busy`, which queues the configuration.
    pub fn init(&mut self)
        ensures
            final(self)@ == old(self)@.init(),
    {
        if self.waiting.is_some() {
            return ;
        }
        self.epd.hw_reset();
        self.sw_reset();
        self.phase = Phase::Uninitialized;
        assert(self@.queue =~= old(self)@.queue + reset_signals());
    }

    /// Begins to send the picture to the panel. See `Panel::refresh`.
    pub fn refresh(&mut self)
        ensures
            final(self)@ == old(self)@.refresh(),
    {
        if self.waiting.is_some() {
            return ;
        }
        self.set_cursor(0, 0);
        self.epd.cmd_data(
            ThreeColorEpdCommand::WriteBlackWhiteRAM.opcode(),
            &self.bw_buffer.buffer,
        );
        self.set_cursor(0, 0);
        self.epd.cmd_data(
            ThreeColorEpdCommand::WriteChromaticRAM.opcode(),
            &self.chromatic_buffer.buffer,
        );
        self.activate();
        if self.phase == Phase::Ready {
            self.phase = Phase::Rendering;
        }
        assert(self@.queue =~= old(self)@.queue + refresh_signals(
            old(self)@.bw,
            old(self)@.chromatic,
        ));
    }

    /// Sends the panel into deep sleep. See `Panel::sleep`.
    pub fn sleep(&mut self)
        ensures
            final(self)@ == old(self)@.sleep(),
    {
        if self.waiting.is_some() {
            return ;
        }
        let data: [u8; 1] = [DeepSleep::SleepLosingRAM.bits()];
        assert(data@ =~= seq![DeepSleep::SleepLosingRAM.bits()]);
        self.cmd_data(ThreeColorEpdCommand::DeepSleepMode, &data);
        if self.phase == Phase::Ready {
            self.phase = Phase::Sleeping;
        }
    }

    /// Tells the driver a reading of the busy line and says how to go on. See
    /// `Panel::poll_busy`.
    pub fn poll_busy(&mut self, reading: Option<bool>) -> (step: WaitStep)
        ensures
            (final(self)@, step) == old(self)@.poll_busy(reading),
    {
        match self.waiting {
            None => WaitStep::Done,
            Some(wait) => {
                if self.epd.is_busy(reading) {
                    match self.polls_left {
                        None => WaitStep::Sleep(POLL_INTERVAL_MS),
                        Some(left) => {
                            if left == 0 {
                                self.waiting = None;
                                self.polls_left = None;
                                WaitStep::TimedOut
                            } else {
                                self.polls_left = Some(left - 1);
                                WaitStep::Sleep(POLL_INTERVAL_MS)
                            }
                        },
                    }
                } else {
                    self.waiting = None;
                    self.polls_left = None;
                    match wait {
                        Wait::Reset => {
                            self.configure();
                            self.phase = Phase::Ready;
                        },
                        Wait::Refresh => {
                            if self.phase == Phase::Rendering {
                                self.phase = Phase::Ready;
                            }
                        },
                    }
                    WaitStep::Done
                }
            },
        }
    }
}

// the drawing interface

impl Epd2in66b {
    /// The extent of the panel: 152 by 296 pixels from the origin, however the picture is
    /// turned.
    pub fn bounding_box(&self) -> (extent: Rectangle)
        ensures
            extent == (Rectangle {
                top_left: Point { x: 0, y: 0 },
                size: Size { width: 152, height: 296 },
            }),
    {
        Rectangle::new(Point::zero(), Size::new(WIDTH as u32, HEIGHT as u32))
    }

    /// The physical point of a logical point, or `None` where one of its coordinates does not
    /// fit 32 bits. Such a point lies far outside the panel.
    pub fn convert_point(&self, point: Point) -> (physical: Option<Point>)
        ensures
            physical == self@.convert_point(point),
    {
        let last_x: i32 = WIDTH as i32 - 1;
        let last_y: i32 = HEIGHT as i32 - 1;
        match self.orientation {
            DisplayOrientation::Portrait => Some(Point::new(point.x, point.y)),
            DisplayOrientation::LandscapeFlipped => match last_x.checked_sub(point.y) {
                Some(x) => Some(Point::new(x, point.x)),
                None => None,
            },
            DisplayOrientation::PortraitFlipped => match last_x.checked_sub(point.x) {
                Some(x) => match last_y.checked_sub(point.y) {
                    Some(y) => Some(Point::new(x, y)),
                    None => None,
                },
                None => None,
            },
            DisplayOrientation::Landscape => match last_y.checked_sub(point.x) {
                Some(y) => Some(Point::new(point.y, y)),
                None => None,
            },
        }
    }

    /// Draws one pixel into the picture. Nothing is sent to the panel.
    pub fn draw_pixel(&mut self, pixel: Pixel)
        ensures
            final(self)@ == old(self)@.draw(pixel),
    {
        let Pixel(coord, color) = pixel;
        let coord = match self.convert_point(coord) {
            Some(coord) => coord,
            None => {
                return ;
            },
        };
        if coord.x < 0 || coord.x >= WIDTH as i32 || coord.y < 0 || coord.y >= HEIGHT as i32 {
            return ;
        }
        let (x, y) = (coord.x as usize, coord.y as usize);

        if color.bw_bit() {
            self.bw_buffer.set_pixel(x, y);
        } else {
            self.bw_buffer.clear_pixel(x, y);
        }
        if color.chromatic_bit() {
            self.chromatic_buffer.set_pixel(x, y);
        } else {
            self.chromatic_buffer.clear_pixel(x, y);
        }
    }

    /// Draws the pixels into the picture, one after the other. Nothing is sent to the panel.
    pub fn draw_iter(&mut self, pixels: &[Pixel])
        ensures
            final(self)@ == old(self)@.draw_all(pixels@),
    {
        for i in 0..pixels.len()
            invariant
                self@ == old(self)@.draw_all(pixels@.take(i as int)),
        {
            assert(pixels@.take(i + 1).drop_last() =~= pixels@.take(i as int));
            self.draw_pixel(pixels[i]);
        }
        assert(pixels@.take(pixels@.len() as int) =~= pixels@);
    }
}

// private API

impl Epd2in66b {
    fn sw_reset(&mut self)
        requires
            old(self)@.waiting is None,
        ensures
            final(self)@ == old(self)@.send(
                cmd_signals(ThreeColorEpdCommand::Reset.opcode()),
            ).wait_for(Wait::Reset),
    {
        self.cmd(ThreeColorEpdCommand::Reset);
        self.waiting = Some(Wait::Reset);
        self.polls_left = self.poll_limit;
    }

    fn configure(&mut self)
        ensures
            final(self)@ == old(self)@.send(configure_signals()),
    {
        self.set_data_entry_mode(DataEntryRow::XMinor, DataEntrySign::IncYIncX);
        self.set_display_update(WriteMode::Normal, WriteMode::Normal, OutputSource::S8ToS167);
        self.set_window(0, WIDTH - 1, 0, HEIGHT - 1);
        assert(self@.queue =~= old(self)@.queue + configure_signals());
    }

    fn cmd(&mut self, cmd: ThreeColorEpdCommand)
        ensures
            final(self)@ == old(self)@.send(cmd_signals(cmd.opcode())),
    {
        self.epd.cmd(cmd.opcode());
    }

    fn cmd_data(&mut self, cmd: ThreeColorEpdCommand, data: &[u8])
        ensures
            final(self)@ == old(self)@.send(cmd_data_signals(cmd.opcode(), data@)),
    {
        self.epd.cmd_data(cmd.opcode(), data);
    }

    fn set_data_entry_mode(&mut self, row: DataEntryRow, sign: DataEntrySign)
        ensures
            final(self)@ == old(self)@.send(
                cmd_data_signals(
                    ThreeColorEpdCommand::DataEntryMode.opcode(),
                    data_entry_mode_of(row, sign),
                ),
            ),
    {
        let data = data_entry_mode(row, sign);
        self.cmd_data(ThreeColorEpdCommand::DataEntryMode, &data);
    }

    fn set_window(&mut self, x_start: usize, x_end: usize, y_start: usize, y_end: usize)
        ensures
            final(self)@ == old(self)@.send(
                window_signals(x_start as int, x_end as int, y_start as int, y_end as int),
            ),
    {
        let x_range = x_address_range(x_start, x_end);
        self.cmd_data(ThreeColorEpdCommand::SetXAddressRange, &x_range);
        let y_range = y_address_range(y_start, y_end);
        self.cmd_data(ThreeColorEpdCommand::SetYAddressRange, &y_range);
        assert(self@.queue =~= old(self)@.queue + window_signals(
            x_start as int,
            x_end as int,
            y_start as int,
            y_end as int,
        ));
    }

    fn set_display_update(
        &mut self,
        bw_mode: WriteMode,
        red_mode: WriteMode,
        output_source: OutputSource,
    )
        ensures
            final(self)@ == old(self)@.send(
                cmd_data_signals(
                    ThreeColorEpdCommand::DisplayUpdateControl1.opcode(),
                    display_update_of(bw_mode, red_mode, output_source),
                ),
            ),
    {
        let data = display_update(bw_mode, red_mode, output_source);
        self.cmd_data(ThreeColorEpdCommand::DisplayUpdateControl1, &data);
    }

    /// Sets the controller's address counters, unless the driver is waiting.
    pub fn set_cursor(&mut self, x: u8, y: u16)
        ensures
            final(self)@ == old(self)@.set_cursor(x, y),
    {
        if self.waiting.is_some() {
            return ;
        }
        let x_data: [u8; 1] = [x];
        assert(x_data@ =~= seq![x]);
        self.cmd_data(ThreeColorEpdCommand::SetXAddressCounter, &x_data);
        let y_data = y_address_counter(y);
        self.cmd_data(ThreeColorEpdCommand::SetYAddressCounter, &y_data);
        assert(self@.queue =~= old(self)@.queue + cursor_signals(x, y));
    }

    fn activate(&mut self)
        requires
            old(self)@.waiting is None,
        ensures
            final(self)@ == old(self)@.send(
                cmd_signals(ThreeColorEpdCommand::MasterActivation.opcode()) + seq![
                    Signal::Delay(20),
                ],
            ).wait_for(Wait::Refresh),
    {
        self.cmd(ThreeColorEpdCommand::MasterActivation);
        self.epd.delay(ACTIVATION_DELAY_MS);
        self.waiting = Some(Wait::Refresh);
        self.polls_left = self.poll_limit;
        assert(self@.queue =~= old(self)@.queue + (cmd_signals(
            ThreeColorEpdCommand::MasterActivation.opcode(),
        ) + seq![Signal::Delay(20)]));
    }
}

} // verus!
