//! One trading cycle after the other.
//!
//! A cycle carries out a decision and then takes stock of the account.
//! Whatever comes of either, the cycle ends with a report, and the report
//! holds the decision. Between two cycles the process sleeps.

use crate::broker::{AlpacaTrader, BrokerCall, BrokerEvent};
use crate::config::TradingConfig;
use crate::machine::{fail, failure, precedes, Concern, Rank, Step, Transition};
use crate::model::Action;
use crate::portfolio::{PortfolioQuery, Summarized};
use crate::reconcile::{execution, Outcome, Reconciliation};
use crate::signals::TradingSignal;
use vstd::prelude::*;

verus! {

/// The pause after a cycle that failed, in seconds.
pub const RETRY_PAUSE_SECS: u64 = 300;

/// The hours between cycles where none are given.
pub const DEFAULT_INTERVAL_HOURS: u64 = 24;

/// The pause after a cycle, in seconds: the interval after a cycle that
/// succeeded, five minutes after one that failed. An interval whose seconds
/// do not fit counts as the longest pause there is.
pub open spec fn pause_secs(succeeded: bool, interval_hours: u64) -> int {
    if !succeeded {
        RETRY_PAUSE_SECS as int
    } else if interval_hours * 3600 > u64::MAX {
        u64::MAX as int
    } else {
        interval_hours * 3600
    }
}

/// How long to sleep after a cycle.
pub fn pause_after_cycle(succeeded: bool, interval_hours: u64) -> (r: u64)
    ensures
        r == pause_secs(succeeded, interval_hours),
{
    if !succeeded {
        RETRY_PAUSE_SECS
    } else {
        match interval_hours.checked_mul(3600) {
            Some(secs) => secs,
            None => u64::MAX,
        }
    }
}

/// Whether a call changes anything at the brokerage: it cancels an order or
/// submits one.
pub open spec fn mutating(call: BrokerCall) -> bool {
    call is CancelOrder || call is SubmitOrder
}

/// What a cycle did.
#[derive(Debug)]
pub struct CycleReport {
    /// The decision that the cycle carried out.
    pub signal: TradingSignal,
    /// The trade, if one was made.
    pub trade: Outcome,
    /// The account after the trade, if it could be read.
    pub portfolio: Summarized,
}

/// How far a cycle has come.
#[derive(Debug)]
pub enum CyclePhase {
    /// The decision is being carried out.
    Trading(Reconciliation),
    /// The decision was carried out with this outcome; the account is being
    /// read.
    Summarizing { trade: Outcome, query: PortfolioQuery },
}

/// A cycle under way.
#[derive(Debug)]
pub struct TradingCycle {
    pub signal: TradingSignal,
    pub phase: CyclePhase,
}

impl TradingCycle {
    /// What follows a step of the trade: while the trade goes on, its call;
    /// once it is over, with or without a trade, the reading of the account.
    pub open spec fn after_trade(
        signal: TradingSignal,
        traded: Transition<Reconciliation, Outcome>,
    ) -> Transition<TradingCycle, CycleReport> {
        match traded.step {
            Step::Call(state, call) => Transition {
                step: Step::Call(TradingCycle { signal, phase: CyclePhase::Trading(state) }, call),
                notice: traded.notice,
            },
            Step::Done(trade) => Transition {
                step: Step::Call(
                    TradingCycle {
                        signal,
                        phase: CyclePhase::Summarizing { trade, query: PortfolioQuery::Positions },
                    },
                    BrokerCall::ListPositions,
                ),
                notice: traded.notice,
            },
        }
    }

    /// The step that the cycle takes on `event`. The cycle ends when the
    /// account was read or could not be read; a summary that could not be
    /// made is reported and does not keep the report from being made.
    pub open spec fn spec_step(self, event: BrokerEvent) -> Transition<TradingCycle, CycleReport> {
        match self.phase {
            CyclePhase::Trading(state) => TradingCycle::after_trade(
                self.signal,
                state.spec_step(event),
            ),
            CyclePhase::Summarizing { trade, query } => match query.spec_step(event) {
                Step::Call(next, call) => Transition {
                    step: Step::Call(
                        TradingCycle {
                            signal: self.signal,
                            phase: CyclePhase::Summarizing { trade, query: next },
                        },
                        call,
                    ),
                    notice: None,
                },
                Step::Done(portfolio) => Transition {
                    step: Step::Done(CycleReport { signal: self.signal, trade, portfolio }),
                    notice: match portfolio {
                        Ok(_) => None,
                        Err(e) => failure(Concern::Summarizing, e),
                    },
                },
            },
        }
    }

    /// How far the cycle is from its end.
    pub open spec fn rank(self) -> Rank {
        match self.phase {
            CyclePhase::Trading(state) => (100 + state.rank().0, state.rank().1),
            CyclePhase::Summarizing { trade, query } => match query {
                PortfolioQuery::Positions => (2, 0),
                PortfolioQuery::Account { positions } => (1, 0),
            },
        }
    }

    /// A cycle comes to an end and reports the decision it began with:
    /// every step that does not end the cycle brings it nearer to its end
    /// and keeps the decision, and the step that ends it hands the decision
    /// out.
    pub proof fn lemma_progress(self, event: BrokerEvent)
        ensures
            self.spec_step(event).step matches Step::Call(next, _) ==> precedes(
                next.rank(),
                self.rank(),
            ) && next.signal == self.signal,
            self.spec_step(event).step matches Step::Done(report) ==> report.signal == self.signal,
    {
        match self.phase {
            CyclePhase::Trading(state) => {
                state.lemma_progress(event);
            },
            _ => {},
        }
    }

    /// A cycle on a decision to hold changes nothing at the brokerage. It
    /// begins by reading the positions; and a cycle that has begun to read
    /// the account makes no call but readings until it ends.
    pub proof fn lemma_hold_only_reads(
        config: TradingConfig,
        signal: TradingSignal,
        later: TradingCycle,
        event: BrokerEvent,
    )
        requires
            signal.action == Action::Hold,
        ensures
            TradingCycle::after_trade(signal, execution(config, signal)).step matches Step::Call(
                first,
                call,
            ) && first.phase is Summarizing && !mutating(call),
            later.phase is Summarizing ==> (later.spec_step(event).step matches Step::Call(
                next,
                call,
            ) ==> next.phase is Summarizing && !mutating(call)),
    {
    }

    fn traded(signal: TradingSignal, traded: Transition<Reconciliation, Outcome>) -> (r: Transition<
        TradingCycle,
        CycleReport,
    >)
        ensures
            r == TradingCycle::after_trade(signal, traded),
    {
        let Transition { step, notice } = traded;
        match step {
            Step::Call(state, call) => Transition {
                step: Step::Call(TradingCycle { signal, phase: CyclePhase::Trading(state) }, call),
                notice,
            },
            Step::Done(trade) => Transition {
                step: Step::Call(
                    TradingCycle {
                        signal,
                        phase: CyclePhase::Summarizing { trade, query: PortfolioQuery::Positions },
                    },
                    BrokerCall::ListPositions,
                ),
                notice,
            },
        }
    }

    /// Takes the next step of the cycle.
    pub fn step(self, event: BrokerEvent) -> (r: Transition<TradingCycle, CycleReport>)
        ensures
            r == self.spec_step(event),
    {
        let TradingCycle { signal, phase } = self;
        match phase {
            CyclePhase::Trading(state) => TradingCycle::traded(signal, state.step(event)),
            CyclePhase::Summarizing { trade, query } => match query.step(event) {
                Step::Call(next, call) => Transition {
                    step: Step::Call(
                        TradingCycle { signal, phase: CyclePhase::Summarizing { trade, query: next } },
                        call,
                    ),
                    notice: None,
                },
                Step::Done(portfolio) => {
                    let notice = match &portfolio {
                        Ok(_) => None,
                        Err(e) => fail(Concern::Summarizing, e.clone()),
                    };
                    Transition {
                        step: Step::Done(CycleReport { signal, trade, portfolio }),
                        notice,
                    }
                },
            },
        }
    }
}

impl AlpacaTrader {
    /// Starts a cycle on a decision: the decision is carried out, and where
    /// there is nothing to carry out, the account is read at once.
    pub fn run_trading_cycle(&self, signal: TradingSignal) -> (r: Transition<
        TradingCycle,
        CycleReport,
    >)
        ensures
            r == TradingCycle::after_trade(signal, execution(self.config(), signal)),
    {
        let traded = self.execute_trade(&signal);
        TradingCycle::traded(signal, traded)
    }
}

} // verus!
