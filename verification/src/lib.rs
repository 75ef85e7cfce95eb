//! A driver for a three-colour e-paper panel of 152 by 296 pixels, free of input and output.
//!
//! The picture lives in two packed bit planes (`bitmap_buffer`), one for black and white and
//! one for the chromatic ink (`three_color`). Points are turned from the picture onto the
//! panel (`display_orientation`). The driver (`epd_2in66b`) draws into the planes and speaks
//! the controller's protocol (`command`) through a transport that queues what has to happen
//! on the wires (`epd_spi`); whoever owns the wires carries the queue out and tells the driver
//! what the busy line shows. `panel_laws` states what holds of the driver in general.
//!
//! Beside the driver stand the text that a display server is asked to show (`display_cmd`),
//! two pictures made by hand (`test_pattern`) and a diagnostic for stacks (`stack_paint`).
pub mod bitmap_buffer;
pub mod command;
pub mod display_cmd;
pub mod display_orientation;
pub mod epd_2in66b;
pub mod epd_spi;
pub mod geometry;
pub mod panel_laws;
pub mod stack_paint;
pub mod test_pattern;
pub mod three_color;

