//! Settings of the strip, the MIDI input and the control interface.
//!
//! A configuration is made once and only read afterwards. Each type has a
//! view that holds its fields as mathematical values; contracts speak of the
//! views, so that a copy of a configuration is known to say the same.

use vstd::prelude::*;

verus! {

/// Where the control interface listens.
#[derive(Debug)]
pub struct ApiConfig {
    pub host: String,
    pub port: u16,
}

/// Mathematical value of an [`ApiConfig`].
pub struct ApiSettings {
    pub host: Seq<char>,
    pub port: u16,
}

impl View for ApiConfig {
    type V = ApiSettings;

    open spec fn view(&self) -> ApiSettings {
        ApiSettings { host: self.host@, port: self.port }
    }
}

impl Clone for ApiConfig {
    fn clone(&self) -> (copy: Self)
        ensures
            copy@ == self@,
    {
        ApiConfig { host: self.host.clone(), port: self.port }
    }
}

/// Socket of the network MIDI bridge.
#[derive(Debug)]
pub struct RtpConfig {
    pub socket: String,
}

/// Mathematical value of an [`RtpConfig`].
pub struct RtpSettings {
    pub socket: Seq<char>,
}

impl View for RtpConfig {
    type V = RtpSettings;

    open spec fn view(&self) -> RtpSettings {
        RtpSettings { socket: self.socket@ }
    }
}

impl Clone for RtpConfig {
    fn clone(&self) -> (copy: Self)
        ensures
            copy@ == self@,
    {
        RtpConfig { socket: self.socket.clone() }
    }
}

/// The MIDI input device and how it is polled.
#[derive(Debug)]
pub struct MidiConfig {
    pub id: i32,
    pub buffer_size: usize,
    pub max_keys_processing: usize,
    pub timeout: u64,
    pub rtp: RtpConfig,
}

/// Mathematical value of a [`MidiConfig`].
pub struct MidiSettings {
    pub id: i32,
    pub buffer_size: usize,
    pub max_keys_processing: usize,
    pub timeout: u64,
    pub rtp: RtpSettings,
}

impl View for MidiConfig {
    type V = MidiSettings;

    open spec fn view(&self) -> MidiSettings {
        MidiSettings {
            id: self.id,
            buffer_size: self.buffer_size,
            max_keys_processing: self.max_keys_processing,
            timeout: self.timeout,
            rtp: self.rtp@,
        }
    }
}

impl Clone for MidiConfig {
    fn clone(&self) -> (copy: Self)
        ensures
            copy@ == self@,
    {
        MidiConfig {
            id: self.id,
            buffer_size: self.buffer_size,
            max_keys_processing: self.max_keys_processing,
            timeout: self.timeout,
            rtp: self.rtp.clone(),
        }
    }
}

/// The strip: its size, how notes are laid out along it, and what it shows
/// when nothing else was chosen.
#[derive(Debug)]
pub struct LedsConfig {
    pub pin: i32,
    pub num_leds: usize,
    pub brightness: u8,
    /// Rows of a note threshold followed by an offset, in the order in which
    /// they are tried.
    pub offsets: Vec<Vec<u8>>,
    pub shift: u8,
    /// Number of frames over which a released note fades out.
    pub fade: i8,
    pub channel: usize,
    pub color_mode: String,
    pub animation: String,
}

/// Mathematical value of a [`LedsConfig`].
pub struct LedsSettings {
    pub pin: i32,
    pub num_leds: usize,
    pub brightness: u8,
    pub offsets: Seq<Seq<u8>>,
    pub shift: u8,
    pub fade: i8,
    pub channel: usize,
    pub color_mode: Seq<char>,
    pub animation: Seq<char>,
}

/// The rows of an offset table as sequences of bytes.
pub open spec fn table_view(table: Seq<Vec<u8>>) -> Seq<Seq<u8>> {
    Seq::new(table.len(), |i: int| table[i]@)
}

impl View for LedsConfig {
    type V = LedsSettings;

    open spec fn view(&self) -> LedsSettings {
        LedsSettings {
            pin: self.pin,
            num_leds: self.num_leds,
            brightness: self.brightness,
            offsets: table_view(self.offsets@),
            shift: self.shift,
            fade: self.fade,
            channel: self.channel,
            color_mode: self.color_mode@,
            animation: self.animation@,
        }
    }
}

/// Copies one row of an offset table.
fn clone_row(row: &Vec<u8>) -> (copy: Vec<u8>)
    ensures
        copy@ == row@,
{
    let mut copy: Vec<u8> = Vec::new();
    let mut i: usize = 0;
    while i < row.len()
        invariant
            i <= row.len(),
            copy@ == row@.take(i as int),
        decreases row.len() - i,
    {
        copy.push(row[i]);
        i += 1;
    }
    copy
}

/// Copies an offset table row by row.
fn clone_table(table: &Vec<Vec<u8>>) -> (copy: Vec<Vec<u8>>)
    ensures
        table_view(copy@) == table_view(table@),
{
    let mut copy: Vec<Vec<u8>> = Vec::new();
    let mut i: usize = 0;
    while i < table.len()
        invariant
            i <= table.len(),
            copy.len() == i,
            forall|j: int| 0 <= j < i ==> copy@[j]@ == table@[j]@,
        decreases table.len() - i,
    {
        copy.push(clone_row(&table[i]));
        i += 1;
    }
    copy
}

impl Clone for LedsConfig {
    fn clone(&self) -> (copy: Self)
        ensures
            copy@ == self@,
    {
        LedsConfig {
            pin: self.pin,
            num_leds: self.num_leds,
            brightness: self.brightness,
            offsets: clone_table(&self.offsets),
            shift: self.shift,
            fade: self.fade,
            channel: self.channel,
            color_mode: self.color_mode.clone(),
            animation: self.animation.clone(),
        }
    }
}

/// Everything that is read at startup.
#[derive(Debug)]
pub struct Config {
    pub leds: LedsConfig,
    pub midi: MidiConfig,
    pub api: ApiConfig,
}

/// Mathematical value of a [`Config`].
pub struct Settings {
    pub leds: LedsSettings,
    pub midi: MidiSettings,
    pub api: ApiSettings,
}

impl View for Config {
    type V = Settings;

    open spec fn view(&self) -> Settings {
        Settings { leds: self.leds@, midi: self.midi@, api: self.api@ }
    }
}

impl Clone for Config {
    fn clone(&self) -> (copy: Self)
        ensures
            copy@ == self@,
    {
        Config { leds: self.leds.clone(), midi: self.midi.clone(), api: self.api.clone() }
    }
}

} // verus!
