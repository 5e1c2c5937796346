//! The session: the configuration in effect, and the rules by which it
//! changes and by which frames are classified.

use vstd::prelude::*;
use vstd::std_specs::convert::FromSpecImpl;
use crate::engine::{ConfigReply, FrameReply};
use crate::mode::{lemma_ordinal_names_mode, Mode};
use crate::sample_rate::{lemma_frame_lengths_of_rate, lemma_hz_names_rate, SampleRate};

verus! {

/// The configuration of a session: what is in effect in a [`Fvad`].
pub struct Config {
    pub mode: Mode,
    pub sample_rate: SampleRate,
}

impl Config {
    /// The configuration of a new session, and of one that was reset.
    pub open spec fn initial() -> Config {
        Config { mode: Mode::Quality, sample_rate: SampleRate::Rate8kHz }
    }

    /// The configuration after the engine answered `reply` to `mode`.
    pub open spec fn with_mode(self, mode: Mode, reply: ConfigReply) -> Config {
        match reply {
            ConfigReply::Accepted => Config { mode, sample_rate: self.sample_rate },
            ConfigReply::Rejected => self,
        }
    }

    /// The configuration after the engine answered `reply` to
    /// `sample_rate`.
    pub open spec fn with_sample_rate(self, sample_rate: SampleRate, reply: ConfigReply) -> Config {
        match reply {
            ConfigReply::Accepted => Config { mode: self.mode, sample_rate },
            ConfigReply::Rejected => self,
        }
    }

    /// The configuration after the engine answered `reply` to the mode
    /// with the ordinal `ordinal`. An ordinal that names no mode changes
    /// nothing, whatever the answer.
    pub open spec fn with_mode_ordinal(self, ordinal: int, reply: ConfigReply) -> Config {
        match Mode::from_ordinal_spec(ordinal) {
            Some(mode) => self.with_mode(mode, reply),
            None => self,
        }
    }

    /// The configuration after the engine answered `reply` to the rate of
    /// `hz` samples per second. A rate that is not supported changes
    /// nothing, whatever the answer.
    pub open spec fn with_sample_rate_hz(self, hz: int, reply: ConfigReply) -> Config {
        match SampleRate::from_hz_spec(hz) {
            Some(sample_rate) => self.with_sample_rate(sample_rate, reply),
            None => self,
        }
    }

    /// Whether a frame of `len` samples may be handed to the engine under
    /// this configuration.
    pub open spec fn accepts(self, len: int) -> bool {
        self.sample_rate.valid_frame_length(len)
    }

    /// The classification of a frame of `len` samples to which the engine
    /// answered `reply`: the decision of the engine where the frame may be
    /// classified, no decision where it may not.
    pub open spec fn classify(self, len: int, reply: FrameReply) -> Option<bool> {
        if self.accepts(len) {
            reply.decision_spec()
        } else {
            None
        }
    }
}

/// A voice activity detection session on an engine of type `H`.
///
/// The session owns its engine from the moment it is opened: no operation
/// exchanges the engine or gives it up, and it is released when the
/// session is. Beside the engine the session holds the mode and the sample
/// rate that are in effect. It changes them only when the engine has
/// accepted the new value, so that a refused request leaves the session as
/// it was.
pub struct Fvad<H> {
    engine: H,
    mode: Mode,
    sample_rate: SampleRate,
}

impl<H> View for Fvad<H> {
    type V = Config;

    closed spec fn view(&self) -> Config {
        Config { mode: self.mode, sample_rate: self.sample_rate }
    }
}

impl<H> From<H> for Fvad<H> {
    /// Opens a session on a newly created engine: the session is in the
    /// initial configuration.
    fn from(engine: H) -> (session: Fvad<H>)
        ensures
            session@ == Config::initial(),
            session.engine_spec() == engine,
    {
        Fvad { engine, mode: Mode::Quality, sample_rate: SampleRate::Rate8kHz }
    }
}

impl<H> FromSpecImpl<H> for Fvad<H> {
    open spec fn obeys_from_spec() -> bool {
        true
    }

    closed spec fn from_spec(engine: H) -> Fvad<H> {
        Fvad { engine, mode: Mode::Quality, sample_rate: SampleRate::Rate8kHz }
    }
}

impl<H> Fvad<H> {
    /// The engine that the session owns.
    pub closed spec fn engine_spec(&self) -> H {
        self.engine
    }

    /// Opens a session on the outcome of creating an engine.
    ///
    /// A session exists only with its engine: where no engine could be
    /// allocated there is no session, and the result is `None`. Nothing
    /// else makes this fail.
    pub fn new(engine: Option<H>) -> (res: Option<Fvad<H>>)
        ensures
            res is Some <==> engine is Some,
            res matches Some(session) ==> session@ == Config::initial(),
            res matches Some(session) ==> engine == Some(session.engine_spec()),
    {
        match engine {
            Some(engine) => Some(Fvad::from(engine)),
            None => None,
        }
    }

    /// The engine of the session, for the calls that the session asks for.
    pub fn engine(&self) -> (engine: &H)
        ensures
            *engine == self.engine_spec(),
    {
        &self.engine
    }

    /// Puts the session back into the initial configuration, whatever it
    /// was configured to. The session keeps its engine. This cannot fail.
    pub fn reset(&mut self)
        ensures
            final(self)@ == Config::initial(),
            final(self).engine_spec() == old(self).engine_spec(),
    {
        self.mode = Mode::Quality;
        self.sample_rate = SampleRate::Rate8kHz;
    }

    /// Records the answer of the engine to a request for `mode`.
    ///
    /// Where the engine accepted, `mode` is in effect from now on and the
    /// result is `Some(())`. Where it refused the mode as invalid, the
    /// result is `None` and the session is as it was.
    pub fn set_mode(&mut self, mode: Mode, reply: ConfigReply) -> (res: Option<()>)
        ensures
            res == reply.outcome_spec(),
            final(self)@ == old(self)@.with_mode(mode, reply),
            final(self).engine_spec() == old(self).engine_spec(),
    {
        if let ConfigReply::Accepted = reply {
            self.mode = mode;
        }
        reply.outcome()
    }

    /// Records the answer of the engine to a request for `sample_rate`.
    ///
    /// Where the engine accepted, `sample_rate` is in effect from now on,
    /// and with it the frame lengths that go with that rate; the result is
    /// `Some(())`. Where it refused the rate as invalid, the result is
    /// `None` and the session is as it was.
    pub fn set_sample_rate(&mut self, sample_rate: SampleRate, reply: ConfigReply) -> (res: Option<()>)
        ensures
            res == reply.outcome_spec(),
            final(self)@ == old(self)@.with_sample_rate(sample_rate, reply),
            final(self).engine_spec() == old(self).engine_spec(),
    {
        if let ConfigReply::Accepted = reply {
            self.sample_rate = sample_rate;
        }
        reply.outcome()
    }

    /// Records the answer of the engine to a request for the mode with
    /// the ordinal `ordinal`.
    ///
    /// An ordinal outside the four that name a mode is refused, whatever
    /// the engine answered: the result is `None` and the session is as it
    /// was. For any other ordinal this is [`Fvad::set_mode`] on the mode
    /// that it names.
    pub fn set_mode_ordinal(&mut self, ordinal: i32, reply: ConfigReply) -> (res: Option<()>)
        ensures
            res is Some <==> Mode::from_ordinal_spec(ordinal as int) is Some
                && reply is Accepted,
            final(self)@ == old(self)@.with_mode_ordinal(ordinal as int, reply),
            final(self).engine_spec() == old(self).engine_spec(),
            !(0 <= ordinal <= 3) ==> res is None && final(self)@ == old(self)@,
    {
        match Mode::try_from(ordinal) {
            Ok(mode) => self.set_mode(mode, reply),
            Err(_) => None,
        }
    }

    /// Records the answer of the engine to a request for the rate of `hz`
    /// samples per second.
    ///
    /// A rate other than the four supported ones is refused, whatever the
    /// engine answered: the result is `None` and the session is as it was.
    /// For a supported rate this is [`Fvad::set_sample_rate`] on it.
    pub fn set_sample_rate_hz(&mut self, hz: u16, reply: ConfigReply) -> (res: Option<()>)
        ensures
            res is Some <==> SampleRate::from_hz_spec(hz as int) is Some
                && reply is Accepted,
            final(self)@ == old(self)@.with_sample_rate_hz(hz as int, reply),
            final(self).engine_spec() == old(self).engine_spec(),
            hz != 8000 && hz != 16000 && hz != 32000 && hz != 48000 ==> res is None
                && final(self)@ == old(self)@,
    {
        match SampleRate::try_from(hz) {
            Ok(sample_rate) => self.set_sample_rate(sample_rate, reply),
            Err(_) => None,
        }
    }

    /// Decides whether `frame` may be handed to the engine: whether it
    /// holds 10, 20 or 30 milliseconds of audio at the rate in effect.
    /// What the samples are plays no part.
    pub fn accepts_frame(&self, frame: &[i16]) -> (ok: bool)
        ensures
            ok == self@.accepts(frame@.len() as int),
    {
        self.sample_rate.is_valid_frame_length(frame.len())
    }

    /// Classifies `frame`, to which the engine answered `reply`.
    ///
    /// A frame of a length that the rate in effect does not admit is not
    /// classified, whatever the answer: the result is `None`, which says
    /// that the frame length is invalid and is no decision about voice. For
    /// any other frame the result is the decision of the engine:
    /// `Some(true)` for voice, `Some(false)` for no voice, `None` where the
    /// engine refused the frame for its length.
    ///
    /// The session is taken exclusively, because every frame moves the
    /// state of the engine; the session itself is left as it was.
    pub fn is_voice_frame(&mut self, frame: &[i16], reply: FrameReply) -> (res: Option<bool>)
        ensures
            res == old(self)@.classify(frame@.len() as int, reply),
            final(self)@ == old(self)@,
            final(self).engine_spec() == old(self).engine_spec(),
    {
        if self.accepts_frame(frame) {
            reply.decision()
        } else {
            None
        }
    }

    /// The mode in effect.
    pub fn mode(&self) -> (mode: Mode)
        ensures
            mode == self@.mode,
    {
        self.mode
    }

    /// The sample rate in effect.
    pub fn sample_rate(&self) -> (sample_rate: SampleRate)
        ensures
            sample_rate == self@.sample_rate,
    {
        self.sample_rate
    }
}

/// The frame lengths that a session admits are a hundredth, two hundredths
/// and three hundredths of its sample rate, and no others. A frame of one
/// of these lengths gets the decision of the engine; a frame of any other
/// length gets no classification, whatever the engine answered.
pub proof fn lemma_frame_lengths(config: Config, len: int, reply: FrameReply)
    ensures
        config.accepts(len) <==> 100 * len == config.sample_rate.hz_spec()
            || 100 * len == 2 * config.sample_rate.hz_spec()
            || 100 * len == 3 * config.sample_rate.hz_spec(),
        config.accepts(len) ==> config.classify(len, reply) == reply.decision_spec(),
        !config.accepts(len) ==> config.classify(len, reply) is None,
{
    lemma_frame_lengths_of_rate(config.sample_rate, len);
}

/// A request by number is the request for what the number names.
pub proof fn lemma_requests_by_number(
    config: Config,
    mode: Mode,
    sample_rate: SampleRate,
    reply: ConfigReply,
)
    ensures
        config.with_mode_ordinal(mode.ordinal_spec(), reply) == config.with_mode(mode, reply),
        config.with_sample_rate_hz(sample_rate.hz_spec(), reply) == config.with_sample_rate(
            sample_rate,
            reply,
        ),
{
    lemma_ordinal_names_mode(mode, mode.ordinal_spec());
    lemma_hz_names_rate(sample_rate, sample_rate.hz_spec());
}

/// Asking for the same mode twice in a row is asking once: where the
/// engine accepts the second request, and the mode is in effect after the
/// first, the second leaves the configuration as the first left it and
/// reports no error.
pub proof fn lemma_mode_twice(config: Config, mode: Mode, first: ConfigReply, second: ConfigReply)
    requires
        second is Accepted,
        first is Accepted || config.mode == mode,
    ensures
        config.with_mode(mode, first).with_mode(mode, second) == config.with_mode(mode, first),
        second.outcome_spec() == Some(()),
{
}

/// Asking for the same sample rate twice in a row is asking once: where
/// the engine accepts the second request, and the rate is in effect after
/// the first, the second leaves the configuration as the first left it and
/// reports no error.
pub proof fn lemma_sample_rate_twice(
    config: Config,
    sample_rate: SampleRate,
    first: ConfigReply,
    second: ConfigReply,
)
    requires
        second is Accepted,
        first is Accepted || config.sample_rate == sample_rate,
    ensures
        config.with_sample_rate(sample_rate, first).with_sample_rate(sample_rate, second)
            == config.with_sample_rate(sample_rate, first),
        second.outcome_spec() == Some(()),
{
}

} // verus!
