//! Control state of the audio engine's processors.
//!
//! Each processor is configured live through a *controller*: a pair of shared
//! atomics holding a generation counter and the current setting. The UI thread
//! writes a new setting and then bumps the generation; the audio thread polls
//! the generation and re-reads the setting only when it changed. What another
//! thread stored cannot be known here, so the contracts below state what holds
//! whatever the atomics return: a processor's setting changes only together
//! with the generation it last observed.
//!
//! The sample processing itself works on floating-point audio and lives with
//! the application.

use std::sync::atomic::{AtomicBool, AtomicU64, Ordering};
use std::sync::Arc;
use vstd::prelude::*;

verus! {

/// A thread-safe handle for toggling mono downmixing while audio is playing.
pub struct MonoController {
    generation: Arc<AtomicU64>,
    enabled: Arc<AtomicBool>,
}

impl MonoController {
    pub fn new(enabled: bool) -> (r: MonoController) {
        MonoController {
            generation: Arc::new(AtomicU64::new(0)),
            enabled: Arc::new(AtomicBool::new(enabled)),
        }
    }

    /// Another handle to the same shared setting.
    pub fn share(&self) -> (r: MonoController)
        ensures
            r == *self,
    {
        MonoController { generation: self.generation.clone(), enabled: self.enabled.clone() }
    }

    /// Store a new setting, then announce it by bumping the generation.
    pub fn update(&self, enabled: bool) {
        self.enabled.store(enabled, Ordering::Release);
        self.generation.fetch_add(1, Ordering::Release);
    }

    pub fn generation(&self) -> u64 {
        self.generation.load(Ordering::Acquire)
    }

    pub fn read(&self) -> bool {
        self.enabled.load(Ordering::Acquire)
    }
}

/// The control state of the mono downmix stage.
pub struct MonoProcessor {
    controller: MonoController,
    enabled: bool,
    generation: u64,
}

impl MonoProcessor {
    pub closed spec fn enabled_spec(&self) -> bool {
        self.enabled
    }

    pub closed spec fn generation_spec(&self) -> u64 {
        self.generation
    }

    pub closed spec fn controller_spec(&self) -> MonoController {
        self.controller
    }

    /// Bind a processor to a controller, seeded from its current setting.
    pub fn new(controller: MonoController) -> (r: MonoProcessor)
        ensures
            r.controller_spec() == controller,
    {
        let enabled = controller.read();
        let generation = controller.generation();
        MonoProcessor { controller, enabled, generation }
    }

    /// A processor in a known state.
    pub fn with_state(controller: MonoController, enabled: bool, generation: u64) -> (r:
        MonoProcessor)
        ensures
            r.controller_spec() == controller,
            r.enabled_spec() == enabled,
            r.generation_spec() == generation,
    {
        MonoProcessor { controller, enabled, generation }
    }

    /// Take in an observed generation and the setting read with it: a changed
    /// generation adopts both, an unchanged one keeps the current state.
    pub fn observe(&mut self, generation: u64, enabled: bool)
        ensures
            final(self).controller_spec() == old(self).controller_spec(),
            generation != old(self).generation_spec() ==> final(self).enabled_spec() == enabled
                && final(self).generation_spec() == generation,
            generation == old(self).generation_spec() ==> final(self).enabled_spec() == old(self).enabled_spec() && final(self).generation_spec() == old(self).generation_spec(),
    {
        if generation != self.generation {
            self.enabled = enabled;
            self.generation = generation;
        }
    }

    /// Poll the controller; the setting is re-read only when the generation moved.
    pub fn refresh(&mut self)
        ensures
            final(self).controller_spec() == old(self).controller_spec(),
            final(self).generation_spec() == old(self).generation_spec() ==> final(self).enabled_spec() == old(self).enabled_spec(),
    {
        let generation = self.controller.generation();
        if generation != self.generation {
            let enabled = self.controller.read();
            self.observe(generation, enabled);
        }
    }

    pub fn name(&self) -> (r: &'static str)
        ensures
            r@ == "mono"@,
    {
        "mono"
    }

    /// Whether the stage currently changes the audio.
    pub fn is_active(&self) -> (r: bool)
        ensures
            r == self.enabled_spec(),
    {
        self.enabled
    }

    /// Whether a buffer with `channels` interleaved channels is downmixed: only
    /// stereo audio, and only while enabled.
    pub fn downmixes(&self, channels: u16) -> (r: bool)
        ensures
            r == (self.enabled_spec() && channels == 2),
    {
        self.enabled && channels == 2
    }
}

/// A thread-safe handle for controlling the mixer while audio is playing.
pub struct MixController {
    generation: Arc<AtomicU64>,
    enabled: Arc<AtomicBool>,
}

impl MixController {
    pub fn new(enabled: bool) -> (r: MixController) {
        MixController {
            generation: Arc::new(AtomicU64::new(0)),
            enabled: Arc::new(AtomicBool::new(enabled)),
        }
    }

    /// Another handle to the same shared setting.
    pub fn share(&self) -> (r: MixController)
        ensures
            r == *self,
    {
        MixController { generation: self.generation.clone(), enabled: self.enabled.clone() }
    }

    /// Store a new setting, then announce it by bumping the generation.
    pub fn update(&self, enabled: bool) {
        self.enabled.store(enabled, Ordering::Release);
        self.generation.fetch_add(1, Ordering::Release);
    }

    pub fn generation(&self) -> u64 {
        self.generation.load(Ordering::Acquire)
    }

    pub fn read(&self) -> bool {
        self.enabled.load(Ordering::Acquire)
    }
}

/// The control state of the mixing stage. It mixes in no sources yet, so it
/// never changes the audio, enabled or not.
pub struct MixProcessor {
    controller: MixController,
    enabled: bool,
    generation: u64,
}

impl MixProcessor {
    pub closed spec fn enabled_spec(&self) -> bool {
        self.enabled
    }

    pub closed spec fn generation_spec(&self) -> u64 {
        self.generation
    }

    pub closed spec fn controller_spec(&self) -> MixController {
        self.controller
    }

    /// Bind a processor to a controller, seeded from its current setting.
    pub fn new(controller: MixController) -> (r: MixProcessor)
        ensures
            r.controller_spec() == controller,
    {
        let enabled = controller.read();
        let generation = controller.generation();
        MixProcessor { controller, enabled, generation }
    }

    /// Take in an observed generation and the setting read with it.
    pub fn observe(&mut self, generation: u64, enabled: bool)
        ensures
            final(self).controller_spec() == old(self).controller_spec(),
            generation != old(self).generation_spec() ==> final(self).enabled_spec() == enabled
                && final(self).generation_spec() == generation,
            generation == old(self).generation_spec() ==> final(self).enabled_spec() == old(self).enabled_spec() && final(self).generation_spec() == old(self).generation_spec(),
    {
        if generation != self.generation {
            self.enabled = enabled;
            self.generation = generation;
        }
    }

    /// Poll the controller; the setting is re-read only when the generation moved.
    pub fn refresh(&mut self)
        ensures
            final(self).controller_spec() == old(self).controller_spec(),
            final(self).generation_spec() == old(self).generation_spec() ==> final(self).enabled_spec() == old(self).enabled_spec(),
    {
        let generation = self.controller.generation();
        if generation != self.generation {
            let enabled = self.controller.read();
            self.observe(generation, enabled);
        }
    }

    pub fn name(&self) -> (r: &'static str)
        ensures
            r@ == "mixer"@,
    {
        "mixer"
    }

    /// Reports the enabled setting, so the wiring is visible in diagnostics.
    pub fn is_active(&self) -> (r: bool)
        ensures
            r == self.enabled_spec(),
    {
        self.enabled
    }
}

/// A thread-safe handle for the stereo balance; the setting is an `f64` kept as
/// its bit pattern, so it is handed over here as those bits.
pub struct PanController {
    generation: Arc<AtomicU64>,
    value: Arc<AtomicU64>,
}

impl PanController {
    pub fn from_bits(bits: u64) -> (r: PanController) {
        PanController {
            generation: Arc::new(AtomicU64::new(0)),
            value: Arc::new(AtomicU64::new(bits)),
        }
    }

    /// Another handle to the same shared setting.
    pub fn share(&self) -> (r: PanController)
        ensures
            r == *self,
    {
        PanController { generation: self.generation.clone(), value: self.value.clone() }
    }

    /// Store a new setting, then announce it by bumping the generation.
    pub fn update_bits(&self, bits: u64) {
        self.value.store(bits, Ordering::Release);
        self.generation.fetch_add(1, Ordering::Release);
    }

    pub fn generation(&self) -> u64 {
        self.generation.load(Ordering::Acquire)
    }

    pub fn read_bits(&self) -> u64 {
        self.value.load(Ordering::Acquire)
    }
}

/// A thread-safe handle for the pitch offset in cents, kept as the bit pattern
/// of an `f64`.
pub struct PitchController {
    generation: Arc<AtomicU64>,
    value: Arc<AtomicU64>,
}

impl PitchController {
    pub fn from_bits(bits: u64) -> (r: PitchController) {
        PitchController {
            generation: Arc::new(AtomicU64::new(0)),
            value: Arc::new(AtomicU64::new(bits)),
        }
    }

    /// Another handle to the same shared setting.
    pub fn share(&self) -> (r: PitchController)
        ensures
            r == *self,
    {
        PitchController { generation: self.generation.clone(), value: self.value.clone() }
    }

    /// Store a new setting, then announce it by bumping the generation.
    pub fn update_bits(&self, bits: u64) {
        self.value.store(bits, Ordering::Release);
        self.generation.fetch_add(1, Ordering::Release);
    }

    pub fn generation(&self) -> u64 {
        self.generation.load(Ordering::Acquire)
    }

    pub fn read_bits(&self) -> u64 {
        self.value.load(Ordering::Acquire)
    }
}

/// One stage of the chain as shown in diagnostics: `name[on]` or `name[off]`.
pub open spec fn stage_text(name: Seq<char>, active: bool) -> Seq<char> {
    name + if active {
        "[on]"@
    } else {
        "[off]"@
    }
}

/// The stages joined by ` -> `.
pub open spec fn joined_stages(stages: Seq<(Seq<char>, bool)>) -> Seq<char>
    decreases stages.len(),
{
    if stages.len() <= 1 {
        if stages.len() == 0 {
            Seq::empty()
        } else {
            stage_text(stages[0].0, stages[0].1)
        }
    } else {
        joined_stages(stages.drop_last()) + " -> "@ + stage_text(
            stages.last().0,
            stages.last().1,
        )
    }
}

/// The description of a processor chain: `<empty>` for no stages.
pub open spec fn chain_summary_spec(stages: Seq<(Seq<char>, bool)>) -> Seq<char> {
    if stages.len() == 0 {
        "<empty>"@
    } else {
        joined_stages(stages)
    }
}

pub open spec fn stages_view(stages: Seq<(&str, bool)>) -> Seq<(Seq<char>, bool)> {
    stages.map_values(|s: (&str, bool)| (s.0@, s.1))
}

/// A human-readable description of a processor chain and which stages are
/// currently active, e.g. `equalizer[on] -> mono[off] -> pitch[off]`.
pub fn chain_summary(stages: &Vec<(&str, bool)>) -> (r: String)
    ensures
        r@ == chain_summary_spec(stages_view(stages@)),
{
    let ghost sv = stages_view(stages@);
    if stages.len() == 0 {
        return String::from_str("<empty>");
    }
    let mut out = String::new();
    let mut i: usize = 0;
    while i < stages.len()
        invariant
            sv == stages_view(stages@),
            sv.len() == stages@.len(),
            stages@.len() > 0,
            i <= stages@.len(),
            i == 0 ==> out@ == Seq::<char>::empty(),
            i > 0 ==> out@ == joined_stages(sv.take(i as int)),
        decreases stages@.len() - i,
    {
        let (name, active) = stages[i];
        if i > 0 {
            out.append(" -> ");
        }
        out.append(name);
        if active {
            out.append("[on]");
        } else {
            out.append("[off]");
        }
        proof {
            let t = sv.take(i + 1);
            assert(t.drop_last() =~= sv.take(i as int));
            assert(t.last() == (name@, active));
            if i == 0 {
                assert(t.len() == 1);
            }
        }
        i = i + 1;
    }
    assert(sv.take(stages@.len() as int) =~= sv);
    out
}

} // verus!
