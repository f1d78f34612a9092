//! Panel geometry and driver settings.
use vstd::prelude::*;

verus! {

/// Which driver back-end talks to the panel.
#[derive(Clone, Copy, Debug, PartialEq, Eq, Structural)]
pub enum DriverType {
    RpiLedPanel,
    RpiLedMatrix,
}

/// How the panels are wired and driven, and where the web server listens.
#[derive(Clone, Debug)]
pub struct DisplayConfig {
    pub rows: usize,
    pub cols: usize,
    pub chain_length: usize,
    pub parallel: usize,
    pub led_brightness: u8,
    pub driver_type: DriverType,
    pub hardware_mapping: String,
    pub pwm_bits: u8,
    pub pwm_lsb_nanoseconds: u32,
    pub gpio_slowdown: Option<u32>,
    pub interlaced: bool,
    pub dither_bits: usize,
    pub panel_type: Option<String>,
    pub multiplexing: Option<String>,
    pub pixel_mapper: Option<String>,
    pub row_setter: String,
    pub led_sequence: String,
    pub pi_chip: Option<String>,
    pub hardware_pulsing: bool,
    pub show_refresh: bool,
    pub inverse_colors: bool,
    pub limit_refresh_rate: u32,
    pub limit_max_brightness: u8,
    pub port: u16,
    pub interface: String,
}

impl DisplayConfig {
    /// Width of the whole display: panel columns times chained panels.
    pub fn display_width(&self) -> (r: i32)
        requires
            self.cols * self.chain_length <= i32::MAX,
        ensures
            r == self.cols * self.chain_length,
    {
        (self.cols * self.chain_length) as i32
    }

    /// Height of the whole display: panel rows times parallel chains.
    pub fn display_height(&self) -> (r: i32)
        requires
            self.rows * self.parallel <= i32::MAX,
        ensures
            r == self.rows * self.parallel,
    {
        (self.rows * self.parallel) as i32
    }
}

/// Settings handed to either driver back-end.
#[derive(Clone, Debug)]
pub struct MatrixOptions {
    pub rows: usize,
    pub cols: usize,
    pub chain_length: usize,
    pub parallel: usize,
    pub brightness: u8,
    pub hardware_mapping: String,
    pub pwm_bits: u8,
    pub pwm_lsb_nanoseconds: u32,
    pub gpio_slowdown: Option<u32>,
    pub interlaced: bool,
    pub dither_bits: usize,
    pub panel_type: Option<String>,
    pub multiplexing: Option<String>,
    pub pixel_mapper: Option<String>,
    pub row_setter: String,
    pub led_sequence: String,
    pub hardware_pulsing: bool,
    pub show_refresh: bool,
    pub inverse_colors: bool,
    pub limit_refresh: u32,
    pub pi_chip: Option<String>,
}

/// The characters of an optional string.
pub open spec fn opt_view(s: Option<String>) -> Option<Seq<char>> {
    match s {
        Some(v) => Some(v@),
        None => None,
    }
}

fn copy_opt(s: &Option<String>) -> (r: Option<String>)
    ensures
        opt_view(r) == opt_view(*s),
{
    match s {
        Some(v) => Some(v.clone()),
        None => None,
    }
}

impl MatrixOptions {
    /// The driver settings that a configuration asks for; the refresh limit
    /// is the configured refresh-rate limit.
    pub fn from_config(config: &DisplayConfig) -> (r: Self)
        ensures
            r.rows == config.rows,
            r.cols == config.cols,
            r.chain_length == config.chain_length,
            r.parallel == config.parallel,
            r.brightness == config.led_brightness,
            r.hardware_mapping@ == config.hardware_mapping@,
            r.pwm_bits == config.pwm_bits,
            r.pwm_lsb_nanoseconds == config.pwm_lsb_nanoseconds,
            r.gpio_slowdown == config.gpio_slowdown,
            r.interlaced == config.interlaced,
            r.dither_bits == config.dither_bits,
            opt_view(r.panel_type) == opt_view(config.panel_type),
            opt_view(r.multiplexing) == opt_view(config.multiplexing),
            opt_view(r.pixel_mapper) == opt_view(config.pixel_mapper),
            r.row_setter@ == config.row_setter@,
            r.led_sequence@ == config.led_sequence@,
            r.hardware_pulsing == config.hardware_pulsing,
            r.show_refresh == config.show_refresh,
            r.inverse_colors == config.inverse_colors,
            r.limit_refresh == config.limit_refresh_rate,
            opt_view(r.pi_chip) == opt_view(config.pi_chip),
    {
        MatrixOptions {
            rows: config.rows,
            cols: config.cols,
            chain_length: config.chain_length,
            parallel: config.parallel,
            brightness: config.led_brightness,
            hardware_mapping: config.hardware_mapping.clone(),
            pwm_bits: config.pwm_bits,
            pwm_lsb_nanoseconds: config.pwm_lsb_nanoseconds,
            gpio_slowdown: config.gpio_slowdown,
            interlaced: config.interlaced,
            dither_bits: config.dither_bits,
            panel_type: copy_opt(&config.panel_type),
            multiplexing: copy_opt(&config.multiplexing),
            pixel_mapper: copy_opt(&config.pixel_mapper),
            row_setter: config.row_setter.clone(),
            led_sequence: config.led_sequence.clone(),
            hardware_pulsing: config.hardware_pulsing,
            show_refresh: config.show_refresh,
            inverse_colors: config.inverse_colors,
            limit_refresh: config.limit_refresh_rate,
            pi_chip: copy_opt(&config.pi_chip),
        }
    }
}

} // verus!
