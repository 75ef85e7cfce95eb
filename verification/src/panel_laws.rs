//! What holds of the driver whatever it is asked to do, stated over its mathematical value.
use crate::bitmap_buffer::{
    lemma_pixel_reads_as_written, lemma_pixel_write_keeps_others, plane_pixel, plane_write,
};
use crate::command::{
    data_entry_mode_of, display_update_of, x_address_range_of, y_address_counter_of,
    y_address_range_of, DataEntryRow, DataEntrySign, OutputSource, WriteMode,
};
use crate::display_orientation::{in_grid, lemma_transform_keeps_grid};
use crate::epd_2in66b::{
    backdrop_bw, backdrop_chromatic, configure_signals, cursor_signals, refresh_signals,
    reset_signals, sleep_signals, Panel, Phase, Wait, WaitStep,
};
use crate::epd_spi::{Level, Signal};
use crate::geometry::{Pixel, Point};
use crate::three_color::ThreeColor;
use vstd::prelude::*;

verus! {

/// A point is drawn exactly if it lies in the picture, which is as wide and as high as the
/// orientation makes it.
pub proof fn lemma_drawn_iff_in_picture(panel: Panel, point: Point)
    ensures
        panel.physical(point) is Some <==> in_grid(
            panel.width(),
            panel.height(),
            point.x as int,
            point.y as int,
        ),
        panel.physical(point) is None ==> forall|color: ThreeColor|
            #[trigger] panel.draw(Pixel(point, color)) == panel,
{
    lemma_transform_keeps_grid(panel.orientation, 152, 296, point.x as int, point.y as int);
}

/// Drawing changes the two planes only, and leaves them as long as they were.
pub proof fn lemma_draw_changes_the_picture_only(panel: Panel, pixel: Pixel)
    requires
        panel.wf(),
    ensures
        panel.draw(pixel).wf(),
        panel.draw(pixel) == (Panel {
            bw: panel.draw(pixel).bw,
            chromatic: panel.draw(pixel).chromatic,
            ..panel
        }),
{
    if panel.physical(pixel.0) is Some {
        let (x, y) = panel.physical(pixel.0)->0;
        crate::bitmap_buffer::lemma_index_in_range(152, 296, x, y);
    }
}

/// After a pixel was drawn, the panel's pixel that its point stands for has the two bits of
/// its colour: white has the black/white bit set and the chromatic bit clear, black has both
/// clear, and the chromatic ink has the black/white bit clear and the chromatic bit set.
pub proof fn lemma_draw_shows_color(panel: Panel, point: Point, color: ThreeColor)
    requires
        panel.wf(),
        panel.physical(point) is Some,
    ensures
        ({
            let (x, y) = panel.physical(point)->0;
            let drawn = panel.draw(Pixel(point, color));
            &&& plane_pixel(drawn.bw, 152, x, y) == (color == ThreeColor::White)
            &&& plane_pixel(drawn.chromatic, 152, x, y) == (color == ThreeColor::Chromatic)
            &&& drawn.color_at(x, y) == Some(color)
        }),
{
    let (x, y) = panel.physical(point)->0;
    lemma_pixel_reads_as_written(panel.bw, 152, 296, x, y);
    lemma_pixel_reads_as_written(panel.chromatic, 152, 296, x, y);
    assert(plane_pixel(plane_write(panel.bw, 152, x, y, color.bw_bit()), 152, x, y)
        == color.bw_bit());
    assert(plane_pixel(plane_write(panel.chromatic, 152, x, y, color.chromatic_bit()), 152, x, y)
        == color.chromatic_bit());
}

/// After a pixel was drawn, every other pixel of the panel has the bits it had.
pub proof fn lemma_draw_keeps_other_pixels(panel: Panel, pixel: Pixel, x2: int, y2: int)
    requires
        panel.wf(),
        in_grid(152, 296, x2, y2),
        panel.physical(pixel.0) != Some((x2, y2)),
    ensures
        plane_pixel(panel.draw(pixel).bw, 152, x2, y2) == plane_pixel(panel.bw, 152, x2, y2),
        plane_pixel(panel.draw(pixel).chromatic, 152, x2, y2) == plane_pixel(
            panel.chromatic,
            152,
            x2,
            y2,
        ),
        panel.draw(pixel).color_at(x2, y2) == panel.color_at(x2, y2),
{
    if panel.physical(pixel.0) is Some {
        let (x, y) = panel.physical(pixel.0)->0;
        lemma_pixel_write_keeps_others(panel.bw, 152, 296, x, y, x2, y2);
        lemma_pixel_write_keeps_others(panel.chromatic, 152, 296, x, y, x2, y2);
        assert(plane_pixel(plane_write(panel.bw, 152, x, y, pixel.1.bw_bit()), 152, x2, y2)
            == plane_pixel(panel.bw, 152, x2, y2));
        assert(plane_pixel(
            plane_write(panel.chromatic, 152, x, y, pixel.1.chromatic_bit()),
            152,
            x2,
            y2,
        ) == plane_pixel(panel.chromatic, 152, x2, y2));
    }
}

/// After `clear`, every byte of the black/white plane is 0xFF and every byte of the chromatic
/// plane is 0x00, so that every pixel of the panel is white.
pub proof fn lemma_clear_shows_backdrop(panel: Panel)
    ensures
        panel.clear().wf(),
        forall|i: int| 0 <= i < 5624 ==> #[trigger] panel.clear().bw[i] == 0xff,
        forall|i: int| 0 <= i < 5624 ==> #[trigger] panel.clear().chromatic[i] == 0x00,
        forall|x: int, y: int|
            in_grid(152, 296, x, y) ==> #[trigger] panel.clear().color_at(x, y) == Some(
                ThreeColor::White,
            ),
{
    assert forall|x: int, y: int| in_grid(152, 296, x, y) implies #[trigger] panel.clear().color_at(
        x,
        y,
    ) == Some(ThreeColor::White) by {
        crate::bitmap_buffer::lemma_index_in_range(152, 296, x, y);
        let bit = crate::bitmap_buffer::bit_index_of(x) as u8;
        let mask = 1u8 << bit;
        assert(0xffu8 & mask != 0) by (bit_vector)
            requires
                bit < 8,
                mask == 1u8 << bit,
        ;
        assert(0x00u8 & mask == 0) by (bit_vector);
    }
}

/// White drawn on the backdrop changes nothing: its pixel is white already.
pub proof fn lemma_white_on_backdrop(panel: Panel, point: Point)
    requires
        panel.bw == backdrop_bw(),
        panel.chromatic == backdrop_chromatic(),
    ensures
        panel.draw(Pixel(point, ThreeColor::White)) == panel,
{
    if panel.physical(point) is Some {
        let (x, y) = panel.physical(point)->0;
        crate::bitmap_buffer::lemma_index_in_range(152, 296, x, y);
        let mask = crate::bitmap_buffer::bit_mask_of(x);
        assert(0xffu8 | mask == 0xff) by (bit_vector);
        assert(0x00u8 & !mask == 0) by (bit_vector);
        let drawn = panel.draw(Pixel(point, ThreeColor::White));
        assert(drawn.bw =~= panel.bw);
        assert(drawn.chromatic =~= panel.chromatic);
    }
}

/// A request made while the driver waits for the panel is not taken up.
pub proof fn lemma_no_request_during_a_wait(panel: Panel, x: u8, y: u16)
    requires
        panel.waiting is Some,
    ensures
        panel.init() == panel,
        panel.refresh() == panel,
        panel.sleep() == panel,
        panel.set_cursor(x, y) == panel,
{
}

/// Initialisation, from any phase: once the busy line is found clear, the panel is ready, and
/// what was queued is the resets followed by the configuration.
pub proof fn lemma_init_makes_ready(panel: Panel, reading: Option<bool>)
    requires
        panel.waiting is None,
        reading != Some(true),
    ensures
        panel.init().phase == Phase::Uninitialized,
        panel.init().waiting == Some(Wait::Reset),
        panel.init().poll_busy(reading).1 == WaitStep::Done,
        panel.init().poll_busy(reading).0 == (Panel {
            phase: Phase::Ready,
            polls_left: None,
            queue: panel.queue + reset_signals() + configure_signals(),
            ..panel
        }),
{
}

/// A refresh of a ready panel: the panel is rendering until the busy line is found clear,
/// and ready after that; what was queued is the picture as it was when the refresh began.
pub proof fn lemma_refresh_renders(panel: Panel, reading: Option<bool>)
    requires
        panel.waiting is None,
        panel.phase == Phase::Ready,
        reading != Some(true),
    ensures
        panel.refresh().phase == Phase::Rendering,
        panel.refresh().waiting == Some(Wait::Refresh),
        panel.refresh().queue == panel.queue + refresh_signals(panel.bw, panel.chromatic),
        panel.refresh().poll_busy(reading).1 == WaitStep::Done,
        panel.refresh().poll_busy(reading).0 == (Panel {
            polls_left: None,
            queue: panel.queue + refresh_signals(panel.bw, panel.chromatic),
            ..panel
        }),
{
}

/// Sleep takes a ready panel to sleep and leaves every other phase as it is; only
/// initialisation leads out of sleep.
pub proof fn lemma_sleep_is_left_by_init_only(panel: Panel, x: u8, y: u16, reading: Option<bool>)
    requires
        panel.waiting is None,
    ensures
        panel.phase == Phase::Ready ==> panel.sleep().phase == Phase::Sleeping,
        panel.phase != Phase::Ready ==> panel.sleep().phase == panel.phase,
        panel.sleep().queue == panel.queue + sleep_signals(),
        panel.phase == Phase::Sleeping ==> {
            &&& panel.sleep().phase == Phase::Sleeping
            &&& panel.refresh().phase == Phase::Sleeping
            &&& panel.refresh().poll_busy(reading).0.phase == Phase::Sleeping
            &&& panel.set_cursor(x, y).phase == Phase::Sleeping
        },
{
}

/// A line that cannot be read counts as clear, and a clear line ends every wait.
pub proof fn lemma_unreadable_line_counts_as_clear(panel: Panel)
    ensures
        panel.poll_busy(None) == panel.poll_busy(Some(false)),
        panel.poll_busy(None).0.waiting is None,
        panel.poll_busy(None).1 == WaitStep::Done,
{
}

/// A wait without a limit never ends as long as the line is busy: each reading asks for a
/// sleep of ten milliseconds and changes nothing.
pub proof fn lemma_wait_without_limit(panel: Panel, count: nat)
    requires
        panel.waiting is Some,
        panel.polls_left is None,
    ensures
        panel.after_busy(count) == panel,
        panel.after_busy(count).poll_busy(Some(true)) == (panel, WaitStep::Sleep(10)),
    decreases count,
{
    if count > 0 {
        lemma_wait_without_limit(panel, (count - 1) as nat);
    }
}

/// A wait with `left` sleeps left takes exactly that many: up to there each busy reading
/// asks for a sleep of ten milliseconds and uses one up, and the next busy reading ends the
/// wait as timed out, with the phase and the queue as they were.
pub proof fn lemma_wait_with_limit(panel: Panel, left: u32, count: nat)
    requires
        panel.waiting is Some,
        panel.polls_left == Some(left),
        count <= left,
    ensures
        panel.after_busy(count) == (Panel { polls_left: Some((left - count) as u32), ..panel }),
        count < left ==> panel.after_busy(count).poll_busy(Some(true)).1 == WaitStep::Sleep(10),
        panel.after_busy(left as nat).poll_busy(Some(true)) == (
            panel.stop_waiting(),
            WaitStep::TimedOut,
        ),
{
    lemma_busy_readings_use_up_sleeps(panel, left, count);
    lemma_busy_readings_use_up_sleeps(panel, left, left as nat);
}

proof fn lemma_busy_readings_use_up_sleeps(panel: Panel, left: u32, count: nat)
    requires
        panel.waiting is Some,
        panel.polls_left == Some(left),
        count <= left,
    ensures
        panel.after_busy(count) == (Panel { polls_left: Some((left - count) as u32), ..panel }),
    decreases count,
{
    if count > 0 {
        lemma_busy_readings_use_up_sleeps(panel, left, (count - 1) as nat);
    }
}

/// The bytes on the wire, written out: the resets, the configuration, the cursor at the
/// origin, the picture and the deep sleep.
pub proof fn lemma_wire_bytes(bw: Seq<u8>, chromatic: Seq<u8>)
    ensures
        reset_signals() == seq![
            Signal::Reset(Level::High),
            Signal::Delay(20),
            Signal::Reset(Level::Low),
            Signal::Delay(2),
            Signal::Reset(Level::High),
            Signal::Delay(200),
            Signal::DataCommand(Level::Low),
            Signal::Write(seq![0x12u8]),
        ],
        configure_signals() == seq![
            Signal::DataCommand(Level::Low),
            Signal::Write(seq![0x11u8]),
            Signal::DataCommand(Level::High),
            Signal::Write(seq![0x03u8]),
            Signal::DataCommand(Level::Low),
            Signal::Write(seq![0x21u8]),
            Signal::DataCommand(Level::High),
            Signal::Write(seq![0x00u8, 0x80u8]),
            Signal::DataCommand(Level::Low),
            Signal::Write(seq![0x44u8]),
            Signal::DataCommand(Level::High),
            Signal::Write(seq![0x00u8, 0x12u8]),
            Signal::DataCommand(Level::Low),
            Signal::Write(seq![0x45u8]),
            Signal::DataCommand(Level::High),
            Signal::Write(seq![0x00u8, 0x00u8, 0x27u8, 0x01u8]),
        ],
        cursor_signals(0, 0) == seq![
            Signal::DataCommand(Level::Low),
            Signal::Write(seq![0x4eu8]),
            Signal::DataCommand(Level::High),
            Signal::Write(seq![0x00u8]),
            Signal::DataCommand(Level::Low),
            Signal::Write(seq![0x4fu8]),
            Signal::DataCommand(Level::High),
            Signal::Write(seq![0x00u8, 0x00u8]),
        ],
        refresh_signals(bw, chromatic) == cursor_signals(0, 0) + seq![
            Signal::DataCommand(Level::Low),
            Signal::Write(seq![0x24u8]),
            Signal::DataCommand(Level::High),
            Signal::Write(bw),
        ] + cursor_signals(0, 0) + seq![
            Signal::DataCommand(Level::Low),
            Signal::Write(seq![0x26u8]),
            Signal::DataCommand(Level::High),
            Signal::Write(chromatic),
            Signal::DataCommand(Level::Low),
            Signal::Write(seq![0x20u8]),
            Signal::Delay(20),
        ],
        sleep_signals() == seq![
            Signal::DataCommand(Level::Low),
            Signal::Write(seq![0x10u8]),
            Signal::DataCommand(Level::High),
            Signal::Write(seq![0x03u8]),
        ],
{
    assert(0b000u8 | 0b11u8 == 0x03u8) by (bit_vector);
    assert((0b0000u8 << 4u8) | 0b0000u8 == 0x00u8) by (bit_vector);
    assert(data_entry_mode_of(DataEntryRow::XMinor, DataEntrySign::IncYIncX) =~= seq![0x03u8]);
    assert(display_update_of(WriteMode::Normal, WriteMode::Normal, OutputSource::S8ToS167)
        =~= seq![0x00u8, 0x80u8]);
    assert(x_address_range_of(0, 151) =~= seq![0x00u8, 0x12u8]);
    assert(y_address_range_of(0, 295) =~= seq![0x00u8, 0x00u8, 0x27u8, 0x01u8]);
    assert(y_address_counter_of(0) =~= seq![0x00u8, 0x00u8]);
    assert(reset_signals() =~= seq![
        Signal::Reset(Level::High),
        Signal::Delay(20),
        Signal::Reset(Level::Low),
        Signal::Delay(2),
        Signal::Reset(Level::High),
        Signal::Delay(200),
        Signal::DataCommand(Level::Low),
        Signal::Write(seq![0x12u8]),
    ]);
    assert(configure_signals() =~= seq![
        Signal::DataCommand(Level::Low),
        Signal::Write(seq![0x11u8]),
        Signal::DataCommand(Level::High),
        Signal::Write(seq![0x03u8]),
        Signal::DataCommand(Level::Low),
        Signal::Write(seq![0x21u8]),
        Signal::DataCommand(Level::High),
        Signal::Write(seq![0x00u8, 0x80u8]),
        Signal::DataCommand(Level::Low),
        Signal::Write(seq![0x44u8]),
        Signal::DataCommand(Level::High),
        Signal::Write(seq![0x00u8, 0x12u8]),
        Signal::DataCommand(Level::Low),
        Signal::Write(seq![0x45u8]),
        Signal::DataCommand(Level::High),
        Signal::Write(seq![0x00u8, 0x00u8, 0x27u8, 0x01u8]),
    ]);
    assert(cursor_signals(0, 0) =~= seq![
        Signal::DataCommand(Level::Low),
        Signal::Write(seq![0x4eu8]),
        Signal::DataCommand(Level::High),
        Signal::Write(seq![0x00u8]),
        Signal::DataCommand(Level::Low),
        Signal::Write(seq![0x4fu8]),
        Signal::DataCommand(Level::High),
        Signal::Write(seq![0x00u8, 0x00u8]),
    ]);
    assert(refresh_signals(bw, chromatic) =~= cursor_signals(0, 0) + seq![
        Signal::DataCommand(Level::Low),
        Signal::Write(seq![0x24u8]),
        Signal::DataCommand(Level::High),
        Signal::Write(bw),
    ] + cursor_signals(0, 0) + seq![
        Signal::DataCommand(Level::Low),
        Signal::Write(seq![0x26u8]),
        Signal::DataCommand(Level::High),
        Signal::Write(chromatic),
        Signal::DataCommand(Level::Low),
        Signal::Write(seq![0x20u8]),
        Signal::Delay(20),
    ]);
    assert(sleep_signals() =~= seq![
        Signal::DataCommand(Level::Low),
        Signal::Write(seq![0x10u8]),
        Signal::DataCommand(Level::High),
        Signal::Write(seq![0x03u8]),
    ]);
}

} // verus!
