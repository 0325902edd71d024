//! The load generator: which load it runs, the request rate of each second of
//! an increasing load, and the body of each request.

use vstd::prelude::*;
use crate::text::{decimal_string, decimal_text, digit_char};

verus! {

/// The two loads that the generator can run.
#[derive(PartialEq, Eq, Structural, Clone, Copy, Debug)]
pub enum StressMode {
    /// The peak rate, every second, for a given number of seconds.
    Constant,
    /// From a start rate up towards the peak rate, one second per rate.
    Incremental,
}

/// The load that a mode name selects: `constant` or `incremental`; any other
/// name selects none, and no request is sent.
pub open spec fn mode_for_name(name: Seq<char>) -> Option<StressMode> {
    if name == "constant"@ {
        Some(StressMode::Constant)
    } else if name == "incremental"@ {
        Some(StressMode::Incremental)
    } else {
        None
    }
}

impl StressMode {
    /// Selects the load by its name.
    pub fn from_name(name: &str) -> (mode: Option<StressMode>)
        ensures
            mode == mode_for_name(name@),
    {
        let name = name.to_owned();
        if name == "constant".to_owned() {
            Some(StressMode::Constant)
        } else if name == "incremental".to_owned() {
            Some(StressMode::Incremental)
        } else {
            None
        }
    }
}

/// The rate that follows `rate` in an increasing load: `rate` plus the
/// increment, but never more than the peak.
pub open spec fn next_ramp_rate(rate: nat, peak: nat, increment: nat) -> nat {
    if rate + increment > peak {
        peak
    } else {
        rate + increment
    }
}

/// The rate that an increasing load from `rate` runs in its `k`-th next second
/// (counting from zero), or `None` once the load has reached its peak.
pub open spec fn ramp_rate_at(rate: nat, peak: nat, increment: nat, k: nat) -> Option<nat>
    decreases k,
{
    if rate >= peak {
        None
    } else if k == 0 {
        Some(rate)
    } else {
        ramp_rate_at(next_ramp_rate(rate, peak, increment), peak, increment, (k - 1) as nat)
    }
}

/// An increasing load: the rate of the second to come, the peak it goes up
/// to, and the increment by which the rate rises each second.
pub struct RateRamp {
    rate: usize,
    peak: usize,
    increment: usize,
}

impl RateRamp {
    /// The rate of the next second.
    pub closed spec fn rate(&self) -> nat {
        self.rate as nat
    }

    /// The rate below which the load stays.
    pub closed spec fn peak(&self) -> nat {
        self.peak as nat
    }

    /// The rise of the rate per second.
    pub closed spec fn increment(&self) -> nat {
        self.increment as nat
    }

    /// A load that starts at `start_rate` requests per second.
    pub fn new(start_rate: usize, peak_rate: usize, increment_per_second: usize) -> (ramp:
        RateRamp)
        ensures
            ramp.rate() == start_rate,
            ramp.peak() == peak_rate,
            ramp.increment() == increment_per_second,
    {
        RateRamp { rate: start_rate, peak: peak_rate, increment: increment_per_second }
    }

    /// The rate of the coming second, or `None` once the rate has reached the
    /// peak: the peak itself is never run.
    pub fn next_second(&mut self) -> (r: Option<usize>)
        ensures
            final(self).peak() == old(self).peak(),
            final(self).increment() == old(self).increment(),
            old(self).rate() < old(self).peak() ==> r == Some(old(self).rate() as usize)
                && final(self).rate() == next_ramp_rate(
                old(self).rate(),
                old(self).peak(),
                old(self).increment(),
            ),
            old(self).rate() >= old(self).peak() ==> r is None && final(self).rate() == old(
                self,
            ).rate(),
    {
        if self.rate < self.peak {
            let current: usize = self.rate;
            if self.increment > self.peak - self.rate {
                self.rate = self.peak;
            } else {
                self.rate = self.rate + self.increment;
            }
            Some(current)
        } else {
            None
        }
    }
}

/// In an increasing load, the `k`-th second runs `start + k * increment`
/// requests as long as that is below the peak, and the load is over from the
/// first `k` at which it is not.
pub proof fn ramp_rates_closed_form(start: nat, peak: nat, increment: nat, k: nat)
    ensures
        start + k * increment < peak ==> ramp_rate_at(start, peak, increment, k) == Some(
            start + k * increment,
        ),
        start + k * increment >= peak ==> ramp_rate_at(start, peak, increment, k) is None,
    decreases k,
{
    if start >= peak || k == 0 {
        assert(k * increment >= 0) by (nonlinear_arith);
        if k == 0 {
            assert(k * increment == 0) by (nonlinear_arith)
                requires
                    k == 0,
            ;
        }
    } else {
        let k1 = (k - 1) as nat;
        assert(k * increment == increment + k1 * increment) by (nonlinear_arith)
            requires
                k1 == k - 1,
        ;
        assert(k1 * increment >= 0) by (nonlinear_arith);
        let next: nat = next_ramp_rate(start, peak, increment);
        if start + increment > peak {
            assert(ramp_rate_at(peak, peak, increment, k1) is None);
        } else {
            ramp_rates_closed_form(next, peak, increment, k1);
        }
    }
}

/// Once an increasing load is over it stays over.
pub proof fn ramp_stays_over(rate: nat, peak: nat, increment: nat, k: nat)
    requires
        ramp_rate_at(rate, peak, increment, k) is None,
    ensures
        ramp_rate_at(rate, peak, increment, k + 1) is None,
    decreases k,
{
    if rate < peak && k > 0 {
        ramp_stays_over(next_ramp_rate(rate, peak, increment), peak, increment, (k - 1) as nat);
    }
}

/// What a constant load does next.
#[derive(PartialEq, Eq, Structural, Clone, Copy, Debug)]
pub enum LoadStep {
    /// Send one request.
    Send,
    /// Wait a second: this second's requests have all been sent.
    Sleep,
    /// The load is over.
    Done,
}

/// The next step of a constant load at `rate` requests a second with
/// `rounds` seconds to go, `sent` requests of this second having been sent;
/// and the rounds and sent count after it.
pub open spec fn load_step(rate: nat, rounds: nat, sent: nat) -> (LoadStep, nat, nat) {
    if rounds == 0 {
        (LoadStep::Done, rounds, sent)
    } else if sent < rate {
        (LoadStep::Send, rounds, sent + 1)
    } else {
        (LoadStep::Sleep, (rounds - 1) as nat, 0)
    }
}

/// The steps that a constant load takes, one `load_step` after the other,
/// before it is over.
pub open spec fn load_steps(rate: nat, rounds: nat, sent: nat) -> Seq<LoadStep>
    decreases rounds, rate - sent,
{
    let (step, next_rounds, next_sent) = load_step(rate, rounds, sent);
    if step == LoadStep::Done {
        Seq::empty()
    } else {
        seq![step] + load_steps(rate, next_rounds, next_sent)
    }
}

/// `rounds` seconds, each of `rate` sends followed by one sleep.
pub open spec fn rounds_of(rate: nat, rounds: nat) -> Seq<LoadStep>
    decreases rounds,
{
    if rounds == 0 {
        Seq::empty()
    } else {
        Seq::new(rate, |i: int| LoadStep::Send).push(LoadStep::Sleep) + rounds_of(
            rate,
            (rounds - 1) as nat,
        )
    }
}

/// A load of the same number of requests every second for some seconds.
pub struct ConstantLoad {
    rate: usize,
    rounds_left: usize,
    sent: usize,
}

impl ConstantLoad {
    /// The requests sent each second.
    pub closed spec fn rate(&self) -> nat {
        self.rate as nat
    }

    /// The seconds still to run, this one included.
    pub closed spec fn rounds_left(&self) -> nat {
        self.rounds_left as nat
    }

    /// The requests of this second already sent.
    pub closed spec fn sent(&self) -> nat {
        self.sent as nat
    }

    /// A load of `rate` requests a second for `duration` seconds.
    pub fn new(rate: usize, duration: usize) -> (l: Self)
        ensures
            l.rate() == rate,
            l.rounds_left() == duration,
            l.sent() == 0,
    {
        ConstantLoad { rate, rounds_left: duration, sent: 0 }
    }

    /// What the load does next: send while this second's requests are not
    /// all sent, then sleep and start the next second, until no second is
    /// left.
    pub fn next(&mut self) -> (step: LoadStep)
        ensures
            final(self).rate() == old(self).rate(),
            (step, final(self).rounds_left(), final(self).sent()) == load_step(
                old(self).rate(),
                old(self).rounds_left(),
                old(self).sent(),
            ),
    {
        if self.rounds_left == 0 {
            LoadStep::Done
        } else if self.sent < self.rate {
            self.sent = self.sent + 1;
            LoadStep::Send
        } else {
            self.sent = 0;
            self.rounds_left = self.rounds_left - 1;
            LoadStep::Sleep
        }
    }
}

proof fn load_steps_one_round(rate: nat, rounds: nat, sent: nat)
    requires
        rounds > 0,
        sent <= rate,
    ensures
        load_steps(rate, rounds, sent) == Seq::new((rate - sent) as nat, |i: int| LoadStep::Send).push(
            LoadStep::Sleep,
        ) + load_steps(rate, (rounds - 1) as nat, 0),
    decreases rate - sent,
{
    if sent < rate {
        load_steps_one_round(rate, rounds, sent + 1);
        assert(seq![LoadStep::Send] + Seq::new((rate - sent - 1) as nat, |i: int| LoadStep::Send)
            =~= Seq::new((rate - sent) as nat, |i: int| LoadStep::Send));
    }
    assert(load_steps(rate, rounds, sent) =~= Seq::new((rate - sent) as nat, |i: int| LoadStep::Send).push(
        LoadStep::Sleep,
    ) + load_steps(rate, (rounds - 1) as nat, 0));
}

/// A constant load sends `rate` requests and then sleeps once, `duration`
/// times over, and is then over.
pub proof fn constant_load_rounds(rate: nat, duration: nat)
    ensures
        load_steps(rate, duration, 0) == rounds_of(rate, duration),
        load_step(rate, 0, 0).0 == LoadStep::Done,
    decreases duration,
{
    if duration > 0 {
        load_steps_one_round(rate, duration, 0);
        constant_load_rounds(rate, (duration - 1) as nat);
    }
}

/// The body of a request: `{"message":"<millis>"}`, with the send time in
/// milliseconds since the Unix epoch written in decimal.
pub open spec fn message_body(message: Seq<char>) -> Seq<char> {
    seq!['{', '"', 'm', 'e', 's', 's', 'a', 'g', 'e', '"', ':', '"'] + message + seq!['"', '}']
}

/// Whether JSON writes the text `s` between its quotes unchanged: it holds no
/// control character, quote or backslash.
pub open spec fn json_plain(s: Seq<char>) -> bool {
    forall|i: int| 0 <= i < s.len() ==> ' ' <= #[trigger] s[i] && s[i] != '"' && s[i] != '\\'
}

/// What `serde_json` writes for an object with one field whose value is a
/// string.
pub uninterp spec fn json_string_field_object(key: Seq<char>, value: Seq<char>) -> Seq<char>;

/// Builds a `serde_json::Value::Object` with the one field `key` holding the
/// string `value`, and writes it with `Value::to_string` (compact form).
/// Claimed: the text depends on key and value alone; where neither needs
/// escaping it is `{"key":"value"}` (serde_json escapes exactly control
/// characters, quotes and backslashes). Not claimed: how escapes are written.
#[verifier::external_body]
fn json_object_text(key: &str, value: &str) -> (text: String)
    ensures
        text@ == json_string_field_object(key@, value@),
        json_plain(key@) && json_plain(value@) ==> text@ == seq!['{', '"'] + key@ + seq![
            '"',
            ':',
            '"',
        ] + value@ + seq!['"', '}'],
{
    let mut object = serde_json::Map::new();
    object.insert(key.to_owned(), serde_json::Value::String(value.to_owned()));
    serde_json::Value::Object(object).to_string()
}

proof fn decimal_text_is_plain(n: nat)
    ensures
        json_plain(decimal_text(n)),
        forall|i: int| 0 <= i < decimal_text(n).len() ==> '0' <= #[trigger] decimal_text(n)[i]
            && decimal_text(n)[i] <= '9',
    decreases n,
{
    if n >= 10 {
        decimal_text_is_plain(n / 10);
        assert(digit_char(n % 10) == decimal_text(n).last());
    }
}

/// The body of a request sent at `millis` milliseconds after the Unix epoch.
pub fn request_body(millis: u128) -> (body: String)
    ensures
        body@ == message_body(decimal_text(millis as nat)),
{
    let stamp = decimal_string(millis);
    proof {
        reveal_strlit("message");
        decimal_text_is_plain(millis as nat);
    }
    let body = json_object_text("message", stamp.as_str());
    assert(body@ =~= message_body(decimal_text(millis as nat)));
    body
}

} // verus!
