//! Mixer settings shared by every playback session, and the gain rule.

use vstd::prelude::*;

verus! {

/// Highest value a volume slider holds; the lowest is 0.
pub const MAX_VOLUME: i32 = 100;

/// One of the two output roles a sound is routed to.
#[derive(Debug, Clone, Copy, PartialEq, Eq, Structural)]
pub enum AudioType {
    Output1,
    Output2,
}

/// Per-role linear gain, in percent of full scale (0 is silent, 100 is full).
#[derive(Debug, Clone, Copy, PartialEq, Eq, Structural)]
pub struct Gains {
    pub out1: u32,
    pub out2: u32,
}

/// The volume a slider value stands for once forced into `0..=100`.
pub open spec fn clamped(v: int) -> int {
    if v < 0 {
        0
    } else if v > MAX_VOLUME {
        MAX_VOLUME as int
    } else {
        v
    }
}

/// A change the mixer asks for.
#[derive(Debug, Clone)]
pub enum AudioSettingsMessage {
    SliderChange(i32, AudioType),
    MutePressed(AudioType),
    OutDev1Selected(String),
    OutDev2Selected(String),
}

/// Volume, mute flag and selected device name of each output role. An empty
/// device name selects the system default device.
#[derive(Debug, Clone)]
pub struct AudioSettings {
    pub output2_slider_value: i32,
    pub output2_muted: bool,
    pub output1_slider_value: i32,
    pub output1_muted: bool,
    pub out2_dev_name: String,
    pub out1_dev_name: String,
}

/// The gains a settings value calls for.
pub open spec fn gains_of(s: AudioSettings) -> Gains {
    Gains {
        out1: gain_of(s.output1_slider_value as int, s.output1_muted) as u32,
        out2: gain_of(s.output2_slider_value as int, s.output2_muted) as u32,
    }
}

/// The settings after one mixer message: a slider stores its value forced
/// into range, a mute button flips its flag, a device selection stores the
/// name for its role; nothing else changes.
pub open spec fn applied(s: AudioSettings, msg: AudioSettingsMessage) -> AudioSettings {
    match msg {
        AudioSettingsMessage::SliderChange(v, AudioType::Output1) => AudioSettings {
            output1_slider_value: clamped(v as int) as i32,
            ..s
        },
        AudioSettingsMessage::SliderChange(v, AudioType::Output2) => AudioSettings {
            output2_slider_value: clamped(v as int) as i32,
            ..s
        },
        AudioSettingsMessage::MutePressed(AudioType::Output1) => AudioSettings {
            output1_muted: !s.output1_muted,
            ..s
        },
        AudioSettingsMessage::MutePressed(AudioType::Output2) => AudioSettings {
            output2_muted: !s.output2_muted,
            ..s
        },
        AudioSettingsMessage::OutDev1Selected(name) => AudioSettings { out1_dev_name: name, ..s },
        AudioSettingsMessage::OutDev2Selected(name) => AudioSettings { out2_dev_name: name, ..s },
    }
}

impl AudioSettings {
    /// Both volumes lie in `0..=100`.
    pub open spec fn wf(&self) -> bool {
        &&& 0 <= self.output1_slider_value <= MAX_VOLUME
        &&& 0 <= self.output2_slider_value <= MAX_VOLUME
    }

    /// The gain each role is played at under these settings.
    pub fn gains(&self) -> (g: Gains)
        requires
            self.wf(),
        ensures
            g == gains_of(*self),
    {
        Gains {
            out1: gain_percent(self.output1_slider_value, self.output1_muted),
            out2: gain_percent(self.output2_slider_value, self.output2_muted),
        }
    }

    /// The same settings with each volume forced into `0..=100`, as for
    /// settings read back from a save.
    pub fn normalized(self) -> (r: AudioSettings)
        ensures
            r == (AudioSettings {
                output1_slider_value: clamped(self.output1_slider_value as int) as i32,
                output2_slider_value: clamped(self.output2_slider_value as int) as i32,
                ..self
            }),
            r.wf(),
    {
        AudioSettings {
            output1_slider_value: clamp_volume(self.output1_slider_value),
            output2_slider_value: clamp_volume(self.output2_slider_value),
            ..self
        }
    }

    /// Applies one mixer message.
    pub fn apply(&mut self, msg: AudioSettingsMessage)
        ensures
            *final(self) == applied(*old(self), msg),
            old(self).wf() ==> final(self).wf(),
    {
        match msg {
            AudioSettingsMessage::SliderChange(v, AudioType::Output1) => {
                self.output1_slider_value = clamp_volume(v);
            },
            AudioSettingsMessage::SliderChange(v, AudioType::Output2) => {
                self.output2_slider_value = clamp_volume(v);
            },
            AudioSettingsMessage::MutePressed(AudioType::Output1) => {
                self.output1_muted = !self.output1_muted;
            },
            AudioSettingsMessage::MutePressed(AudioType::Output2) => {
                self.output2_muted = !self.output2_muted;
            },
            AudioSettingsMessage::OutDev1Selected(name) => {
                self.out1_dev_name = name;
            },
            AudioSettingsMessage::OutDev2Selected(name) => {
                self.out2_dev_name = name;
            },
        }
    }
}

impl Default for AudioSettings {
    /// Silent, unmuted roles on the system default devices.
    fn default() -> (r: AudioSettings)
        ensures
            r.output1_slider_value == 0,
            r.output2_slider_value == 0,
            !r.output1_muted,
            !r.output2_muted,
            r.out1_dev_name@ == Seq::<char>::empty(),
            r.out2_dev_name@ == Seq::<char>::empty(),
            r.wf(),
    {
        AudioSettings {
            output2_slider_value: 0,
            output2_muted: false,
            output1_slider_value: 0,
            output1_muted: false,
            out2_dev_name: String::new(),
            out1_dev_name: String::new(),
        }
    }
}

/// What the mixer panel shows besides the shared settings: the output devices
/// found at the last enumeration and the name picked for each role.
#[derive(Debug, Clone)]
pub struct AudioSettingsModel {
    pub out_dev_names: Vec<String>,
    pub out1_dev_name: String,
    pub out2_dev_name: String,
}

impl AudioSettingsModel {
    /// A panel listing the given devices, with no device picked yet.
    pub fn new(out_dev_names: Vec<String>) -> (r: AudioSettingsModel)
        ensures
            r.out_dev_names@ == out_dev_names@,
            r.out1_dev_name@ == Seq::<char>::empty(),
            r.out2_dev_name@ == Seq::<char>::empty(),
    {
        AudioSettingsModel { out_dev_names, out1_dev_name: String::new(), out2_dev_name: String::new() }
    }

    /// Replaces the list of devices with a fresh enumeration.
    pub fn refresh_devices(&mut self, out_dev_names: Vec<String>)
        ensures
            final(self).out_dev_names@ == out_dev_names@,
            final(self).out1_dev_name == old(self).out1_dev_name,
            final(self).out2_dev_name == old(self).out2_dev_name,
    {
        self.out_dev_names = out_dev_names;
    }

    /// Commits a mixer message to the shared settings and records a device
    /// pick in the panel. Every live session must then be told that the
    /// settings changed.
    pub fn update(&mut self, settings: &mut AudioSettings, msg: AudioSettingsMessage)
        ensures
            *final(settings) == applied(*old(settings), msg),
            old(settings).wf() ==> final(settings).wf(),
            final(self).out_dev_names == old(self).out_dev_names,
            final(self).out1_dev_name == (match msg {
                AudioSettingsMessage::OutDev1Selected(name) => name,
                _ => old(self).out1_dev_name,
            }),
            final(self).out2_dev_name == (match msg {
                AudioSettingsMessage::OutDev2Selected(name) => name,
                _ => old(self).out2_dev_name,
            }),
    {
        match &msg {
            AudioSettingsMessage::OutDev1Selected(name) => {
                self.out1_dev_name = name.clone();
            },
            AudioSettingsMessage::OutDev2Selected(name) => {
                self.out2_dev_name = name.clone();
            },
            _ => {},
        }
        settings.apply(msg);
    }
}

/// Gain in percent for a volume and a mute flag.
pub open spec fn gain_of(volume: int, muted: bool) -> int {
    if muted {
        0
    } else {
        volume
    }
}

/// Forces a slider value into the volume range `0..=100`.
pub fn clamp_volume(v: i32) -> (r: i32)
    ensures
        r == clamped(v as int),
{
    if v < 0 {
        0
    } else if v > MAX_VOLUME {
        MAX_VOLUME
    } else {
        v
    }
}

/// Gain in percent: 0 when muted, else the volume itself, so that a volume
/// in `0..=100` maps linearly onto a gain in `0.0..=1.0`.
pub fn gain_percent(volume: i32, muted: bool) -> (g: u32)
    requires
        0 <= volume <= MAX_VOLUME,
    ensures
        g == gain_of(volume as int, muted),
{
    if muted {
        0
    } else {
        volume as u32
    }
}

/// Unmuted gain never decreases as the volume rises, and a muted role is
/// silent whatever its volume.
pub proof fn lemma_gain_monotonic(v1: int, v2: int, volume: int)
    requires
        0 <= v1 <= v2 <= MAX_VOLUME,
        0 <= volume <= MAX_VOLUME,
    ensures
        gain_of(v1, false) <= gain_of(v2, false),
        gain_of(volume, true) == 0,
        0 <= gain_of(volume, false) <= MAX_VOLUME,
{
}

} // verus!
