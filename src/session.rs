use vstd::prelude::*;

use crate::bytes::{be_value, sha256_of};
use crate::config::{CPUChallengeConfiguration, NetworkChallengeConfiguration};
use crate::message::{Data, Message, Response};
use crate::roundtrip::RoundtripVerifier;
use crate::score::{calculate_score, score_of, seq_sum};
use crate::timelock::TimelockVerifier;

verus! {

/// Why a session ended early.
#[derive(Debug, Clone)]
pub enum SessionError {
    /// A frame could not be decoded into a message, or held `Unknown`.
    CodecError,
    /// A frame was not binary.
    TransportError,
    /// The stream ended before the reply came.
    PeerClosed,
    /// The client sent `Data::Error` with this text.
    ClientReportedError(String),
    /// A reply did not solve its challenge.
    MeasurementFailed,
}

/// What the session does next.
#[derive(Debug, Clone, Copy, PartialEq, Eq, Structural)]
pub enum Step {
    /// Issue a CPU challenge; the clock starts once it is sent.
    Cpu,
    /// Issue a network challenge; the clock starts before it is sent.
    Network,
    /// All challenges are answered: score the session.
    Finished,
}

/// Whether the response answers the network challenge: it must be a network
/// response whose payload has the verifier's digest.
pub open spec fn network_response_ok(verifier: RoundtripVerifier, response: Message) -> bool {
    match response {
        Message::Response(Response::NetworkChallengeResponse(d)) => sha256_of(d@) == verifier.hash@,
        _ => false,
    }
}

/// Whether the response answers the CPU challenge: it must be a CPU response
/// whose magnitude equals the verifier's answer.
pub open spec fn cpu_response_ok(verifier: TimelockVerifier, response: Message) -> bool {
    match response {
        Message::Response(Response::CPUChallengeResponse(d)) => be_value(d@) == be_value(
            verifier.answer@,
        ),
        _ => false,
    }
}

/// Judges a reply to a network challenge.
pub fn verify_network_challenge_response(
    roundtrip_verifier: RoundtripVerifier,
    response: Message,
) -> (r: bool)
    ensures
        r == network_response_ok(roundtrip_verifier, response),
{
    match response {
        Message::Response(Response::NetworkChallengeResponse(serialized_answer)) => {
            roundtrip_verifier.verify(serialized_answer)
        },
        _ => false,
    }
}

/// Judges a reply to a CPU challenge.
pub fn verify_cpu_challenge_response(timelock_verifier: TimelockVerifier, response: Message) -> (r:
    bool)
    ensures
        r == cpu_response_ok(timelock_verifier, response),
{
    match response {
        Message::Response(Response::CPUChallengeResponse(serialized_answer)) => {
            timelock_verifier.verify(serialized_answer.as_slice())
        },
        _ => false,
    }
}

/// Screens a decoded reply: a `Data::Error` from the client and an `Unknown`
/// message end the session; anything else is handed on.
pub fn check_reply(msg: Message) -> (r: Result<Message, SessionError>)
    ensures
        match msg {
            Message::Data(Data::Error(text)) => r matches Err(SessionError::ClientReportedError(t))
                && t@ == text@,
            Message::Unknown => r matches Err(SessionError::CodecError),
            _ => r matches Ok(m) && m == msg,
        },
{
    match msg {
        Message::Data(Data::Error(text)) => Err(SessionError::ClientReportedError(text)),
        Message::Unknown => Err(SessionError::CodecError),
        _ => Ok(msg),
    }
}

/// Text of the notice that a measurement of this step failed.
pub open spec fn notice_text(step: Step) -> Seq<char> {
    if step == Step::Cpu {
        "Failed CPU measurements"@
    } else {
        "Failed Network measurements"@
    }
}

/// The message that tells the client that a measurement failed.
pub fn failure_notice(step: Step) -> (r: Message)
    requires
        step != Step::Finished,
    ensures
        r matches Message::Data(Data::Error(t)) && t@ == notice_text(step),
{
    if step == Step::Cpu {
        Message::Data(Data::Error(String::from_str("Failed CPU measurements")))
    } else {
        Message::Data(Data::Error(String::from_str("Failed Network measurements")))
    }
}

/// What a finished session records for its client.
pub struct ClientData {
    pub score: u128,
    pub cpu_challenge_timings_in_milis: Vec<u128>,
    pub network_challenge_timings_in_milis: Vec<u128>,
}

/// The challenges that one session runs, and how their timings are judged.
pub struct ClientChallenger {
    pub cpu_challenge_config: CPUChallengeConfiguration,
    pub network_challenge_config: NetworkChallengeConfiguration,
    pub number_of_cpu_challenge: usize,
    pub number_of_network_challenge: usize,
}

/// The conditions under which the challenger can score timings of the
/// configured counts.
pub open spec fn scorable(c: ClientChallenger, cpu: Seq<u128>, net: Seq<u128>) -> bool {
    &&& cpu.len() > 0
    &&& net.len() > 0
    &&& seq_sum(cpu) <= u128::MAX
    &&& seq_sum(net) <= u128::MAX
    &&& c.cpu_challenge_config.max_milliseconds * 50 <= u128::MAX
    &&& c.network_challenge_config.max_milliseconds * 50 <= u128::MAX
}

/// The challenger's score of the two timing vectors.
pub open spec fn challenger_score(c: ClientChallenger, cpu: Seq<u128>, net: Seq<u128>) -> int {
    score_of(
        c.cpu_challenge_config.ideal_milliseconds as int,
        c.cpu_challenge_config.max_milliseconds as int,
        cpu,
        c.network_challenge_config.ideal_milliseconds as int,
        c.network_challenge_config.max_milliseconds as int,
        net,
    )
}

impl ClientChallenger {
    /// The server's settings: five CPU challenges of 200000 squarings
    /// (ideal 4500 ms, at most 120000 ms), then ten network challenges of
    /// 1024 KiB (ideal 200 ms, at most 25000 ms).
    pub fn standard() -> (r: ClientChallenger)
        ensures
            r.cpu_challenge_config.squarings == 200000,
            r.cpu_challenge_config.ideal_milliseconds == 4500,
            r.cpu_challenge_config.max_milliseconds == 120000,
            r.network_challenge_config.data_size_kb == 1024,
            r.network_challenge_config.ideal_milliseconds == 200,
            r.network_challenge_config.max_milliseconds == 25000,
            r.number_of_cpu_challenge == 5,
            r.number_of_network_challenge == 10,
    {
        ClientChallenger {
            cpu_challenge_config: CPUChallengeConfiguration {
                squarings: 200000,
                ideal_milliseconds: 4500,
                max_milliseconds: 120000,
            },
            network_challenge_config: NetworkChallengeConfiguration {
                data_size_kb: 1024,
                ideal_milliseconds: 200,
                max_milliseconds: 25000,
            },
            number_of_cpu_challenge: 5,
            number_of_network_challenge: 10,
        }
    }

    /// Scores the session's timings with the challenger's thresholds.
    pub fn determine_score(&self, cpu_results: &Vec<u128>, network_results: &Vec<u128>) -> (r:
        u128)
        requires
            scorable(*self, cpu_results@, network_results@),
        ensures
            r == challenger_score(*self, cpu_results@, network_results@),
    {
        calculate_score(
            &self.cpu_challenge_config,
            cpu_results,
            &self.network_challenge_config,
            network_results,
        )
    }
}

/// The timings of one session so far, in the order the challenges were issued.
pub struct Session {
    pub cpu_results: Vec<u128>,
    pub network_results: Vec<u128>,
}

/// The step that follows the timings recorded so far: every CPU challenge
/// before the first network challenge.
pub open spec fn step_after(c: ClientChallenger, cpu_done: nat, net_done: nat) -> Step {
    if cpu_done < c.number_of_cpu_challenge {
        Step::Cpu
    } else if net_done < c.number_of_network_challenge {
        Step::Network
    } else {
        Step::Finished
    }
}

/// A session records no more timings than the challenger asks for, and none
/// of the network before all of the CPU.
pub open spec fn session_wf(s: Session, c: ClientChallenger) -> bool {
    &&& s.cpu_results@.len() <= c.number_of_cpu_challenge
    &&& s.network_results@.len() <= c.number_of_network_challenge
    &&& s.network_results@.len() > 0 ==> s.cpu_results@.len() == c.number_of_cpu_challenge
}

/// `after` is `before` with timing `t` appended to the vector of the step
/// that was due.
pub open spec fn records(c: ClientChallenger, before: Session, after: Session, t: u128) -> bool {
    match step_after(c, before.cpu_results@.len(), before.network_results@.len()) {
        Step::Cpu => after.cpu_results@ == before.cpu_results@.push(t) && after.network_results@
            == before.network_results@,
        Step::Network => after.network_results@ == before.network_results@.push(t)
            && after.cpu_results@ == before.cpu_results@,
        Step::Finished => false,
    }
}

impl Session {
    /// A session with nothing recorded.
    pub fn new() -> (r: Session)
        ensures
            r.cpu_results@.len() == 0,
            r.network_results@.len() == 0,
    {
        Session { cpu_results: Vec::new(), network_results: Vec::new() }
    }

    /// What the session does next.
    pub fn next_step(&self, challenger: &ClientChallenger) -> (r: Step)
        ensures
            r == step_after(
                *challenger,
                self.cpu_results@.len(),
                self.network_results@.len(),
            ),
    {
        if self.cpu_results.len() < challenger.number_of_cpu_challenge {
            Step::Cpu
        } else if self.network_results.len() < challenger.number_of_network_challenge {
            Step::Network
        } else {
            Step::Finished
        }
    }

    /// Records the timing of the challenge that `next_step` named.
    pub fn record(&mut self, challenger: &ClientChallenger, elapsed_ms: u128)
        requires
            session_wf(*old(self), *challenger),
            step_after(
                *challenger,
                old(self).cpu_results@.len(),
                old(self).network_results@.len(),
            ) != Step::Finished,
        ensures
            session_wf(*final(self), *challenger),
            records(*challenger, *old(self), *final(self), elapsed_ms),
    {
        if self.cpu_results.len() < challenger.number_of_cpu_challenge {
            self.cpu_results.push(elapsed_ms);
        } else {
            self.network_results.push(elapsed_ms);
        }
    }

    /// Acts on the judged reply to the challenge that `next_step` named. A
    /// reply that passed has its timing recorded, and `None` comes back. One
    /// that failed leaves the session as it was and gives the notice to send
    /// before the session ends as failed; no record is ever made of it.
    pub fn conclude_challenge(
        &mut self,
        challenger: &ClientChallenger,
        passed: bool,
        elapsed_ms: u128,
    ) -> (r: Option<Message>)
        requires
            session_wf(*old(self), *challenger),
            step_after(
                *challenger,
                old(self).cpu_results@.len(),
                old(self).network_results@.len(),
            ) != Step::Finished,
        ensures
            session_wf(*final(self), *challenger),
            passed ==> r is None && records(*challenger, *old(self), *final(self), elapsed_ms),
            !passed ==> *final(self) == *old(self),
            !passed ==> (r matches Some(Message::Data(Data::Error(t))) && t@ == notice_text(
                step_after(
                    *challenger,
                    old(self).cpu_results@.len(),
                    old(self).network_results@.len(),
                ),
            )),
    {
        if passed {
            self.record(challenger, elapsed_ms);
            None
        } else {
            Some(failure_notice(self.next_step(challenger)))
        }
    }

    /// Scores a finished session into the record kept for the client.
    pub fn finish(self, challenger: &ClientChallenger) -> (r: ClientData)
        requires
            scorable(*challenger, self.cpu_results@, self.network_results@),
        ensures
            r.score == challenger_score(*challenger, self.cpu_results@, self.network_results@),
            r.cpu_challenge_timings_in_milis@ == self.cpu_results@,
            r.network_challenge_timings_in_milis@ == self.network_results@,
    {
        let score = challenger.determine_score(&self.cpu_results, &self.network_results);
        ClientData {
            score,
            cpu_challenge_timings_in_milis: self.cpu_results,
            network_challenge_timings_in_milis: self.network_results,
        }
    }
}

} // verus!
