//! One price request from start to finish: the snapshot fetch and the chart run as two
//! units of work, the reply is composed once both have settled, and the chart file is
//! deleted after the reply was sent. The caller performs each action and reports what
//! came of it; the decisions are made here.

use vstd::prelude::*;
use crate::chart::{
    all_candles_wf, candle_plan, candles_in_range, chart_file, chart_file_name, is_candle_plan,
    is_line_plan, line_plan, time_stamp, Candle, CandlePlan, LinePlan,
};
use crate::coin::Coin;
use crate::control::{Control, DrawStage, EventKind, ActionKind, Phase, Stage};
use crate::gecko::GeckoError;
use crate::reply::{build_message, card_complete, is_card_for, BotError, Reply};
use crate::money::is_iso_code;
use crate::request::{command_coin, resolve_request, ChartStyle, Request};

verus! {

/// The snapshot, once it came.
#[derive(Clone, Debug)]
pub enum SnapshotState {
    Pending,
    Fetched(Coin),
    Failed(GeckoError),
}

/// The chart, as far as it got.
#[derive(Clone, Copy, Debug, PartialEq, Eq, Structural)]
pub enum ChartState {
    /// Waiting for its data.
    Waiting,
    Drawing,
    Drawn,
    /// It failed; `file` when drawing had begun, so that a file may exist.
    Failed { error: BotError, file: bool },
}

/// What the caller reports.
#[derive(Debug)]
pub enum Event {
    SnapshotFetched(Result<Coin, GeckoError>),
    OhlcFetched(Result<Vec<Candle>, GeckoError>),
    /// Drawing ended, well (`true`) or not.
    ChartDrawn(bool),
    /// The reply was sent, or sending it failed.
    ReplySent,
    /// Deleting the chart file was attempted; `true` when the file was removed. A failed
    /// removal (the file was never written, say) ends the request all the same.
    FileDeleted(bool),
}

/// What the caller is asked to do.
#[derive(Clone, Debug)]
pub enum Action {
    FetchSnapshot(String),
    FetchOhlc(String),
    DrawLine(LinePlan),
    DrawCandles(CandlePlan),
    /// Send the card with the chart file at the given path attached.
    SendCard(Reply, String),
    /// Send the sentence in place of a card.
    SendText(String),
    DeleteFile(String),
    Finish,
    Wait,
}

impl Event {
    pub open spec fn kind(self) -> EventKind {
        match self {
            Event::SnapshotFetched(Ok(coin)) => if coin.wf() {
                EventKind::SnapshotOk { plottable: coin.market_data.sparkline_7d.price@.len() > 0 }
            } else {
                EventKind::SnapshotErr
            },
            Event::SnapshotFetched(Err(_)) => EventKind::SnapshotErr,
            Event::OhlcFetched(Ok(series)) => if all_candles_wf(series@) {
                EventKind::OhlcOk { plottable: series@.len() > 0 }
            } else {
                EventKind::OhlcErr
            },
            Event::OhlcFetched(Err(_)) => EventKind::OhlcErr,
            Event::ChartDrawn(ok) => EventKind::Drawn { ok },
            Event::ReplySent => EventKind::Sent,
            Event::FileDeleted(_) => EventKind::Deleted,
        }
    }
}

impl Action {
    pub open spec fn kind(self) -> ActionKind {
        match self {
            Action::FetchSnapshot(_) => ActionKind::Fetch,
            Action::FetchOhlc(_) => ActionKind::Fetch,
            Action::DrawLine(_) => ActionKind::Draw,
            Action::DrawCandles(_) => ActionKind::Draw,
            Action::SendCard(_, _) => ActionKind::Send,
            Action::SendText(_) => ActionKind::Send,
            Action::DeleteFile(_) => ActionKind::Delete,
            Action::Finish => ActionKind::Finish,
            Action::Wait => ActionKind::Wait,
        }
    }
}

/// One request in progress.
pub struct Fulfillment {
    pub request: Request,
    /// The file the chart is drawn to.
    pub path: String,
    pub snapshot: SnapshotState,
    pub chart: ChartState,
    pub phase: Phase,
}

impl Fulfillment {
    pub open spec fn control(&self) -> Control {
        Control {
            line: self.request.style == ChartStyle::Line,
            snapshot: match self.snapshot {
                SnapshotState::Pending => Stage::Pending,
                SnapshotState::Fetched(_) => Stage::Ready,
                SnapshotState::Failed(_) => Stage::Failed,
            },
            chart: match self.chart {
                ChartState::Waiting => DrawStage::Waiting,
                ChartState::Drawing => DrawStage::Drawing,
                ChartState::Drawn => DrawStage::Drawn,
                ChartState::Failed { file, .. } => DrawStage::Failed { file },
            },
            phase: self.phase,
        }
    }

    pub open spec fn wf(&self) -> bool {
        &&& self.request.currency.wf()
        &&& self.control().inv()
        &&& self.snapshot matches SnapshotState::Fetched(coin) ==> coin.wf()
    }

    /// Why the request failed, if it did: the snapshot's error first, then the chart's.
    pub open spec fn failure(&self) -> Option<BotError> {
        match self.snapshot {
            SnapshotState::Failed(e) => Some(BotError::Gecko(e)),
            _ => match self.chart {
                ChartState::Failed { error, .. } => Some(error),
                _ => None,
            },
        }
    }

    /// `a` is the reply that a settled request owes: the card with the chart attached
    /// when both units succeeded and the snapshot has all the card shows, else the
    /// sentence of what went wrong.
    pub open spec fn is_reply(&self, a: Action) -> bool {
        match self.failure() {
            Some(e) => a matches Action::SendText(t) && t@ == e.message_text(),
            None => match self.snapshot {
                SnapshotState::Fetched(coin) => if card_complete(coin, self.request.currency.code@) {
                    a matches Action::SendCard(card, file) && is_card_for(
                        card,
                        coin,
                        self.request.currency.code@,
                    ) && file@ == self.path@
                } else {
                    a matches Action::SendText(t) && t@ == BotError::FormatFailed.message_text()
                },
                _ => false,
            },
        }
    }

    /// No card without a chart: when either unit failed (the OHLC fetch of a candlestick
    /// chart, say, while the snapshot came), the reply owed is the sentence of the
    /// error, and the snapshot's error comes first.
    pub proof fn lemma_failure_sends_text(&self, a: Action)
        requires
            self.is_reply(a),
            self.snapshot is Failed || self.chart is Failed,
        ensures
            a matches Action::SendText(t) && t@ == self.failure()->0.message_text(),
            self.snapshot matches SnapshotState::Failed(e) ==> self.failure() == Some(
                BotError::Gecko(e),
            ),
    {
    }

    /// Begins `request`, whose chart goes to a file named after the coin and `stamp`.
    /// A line chart needs the snapshot first; a candlestick chart fetches its own
    /// series, at the same time as the snapshot.
    pub fn start_with_stamp(request: Request, stamp: &str) -> (r: (Fulfillment, Vec<Action>))
        requires
            request.currency.wf(),
        ensures
            r.0.wf(),
            r.0.request == request,
            r.0.path@ == chart_file_name(request.coin_id@, stamp@),
            r.0.control() == Control::initial(request.style == ChartStyle::Line),
            r.0.snapshot is Pending,
            r.0.chart == ChartState::Waiting,
            request.style == ChartStyle::Line ==> r.1@.len() == 1,
            request.style == ChartStyle::Candlestick ==> r.1@.len() == 2,
            r.1@[0] matches Action::FetchSnapshot(id) && id@ == request.coin_id@,
            request.style == ChartStyle::Candlestick ==> (r.1@[1] matches Action::FetchOhlc(id)
                && id@ == request.coin_id@),
    {
        let path = chart_file(request.coin_id.as_str(), stamp);
        let mut actions: Vec<Action> = Vec::new();
        actions.push(Action::FetchSnapshot(request.coin_id.clone()));
        if request.style == ChartStyle::Candlestick {
            actions.push(Action::FetchOhlc(request.coin_id.clone()));
        }
        let f = Fulfillment {
            request,
            path,
            snapshot: SnapshotState::Pending,
            chart: ChartState::Waiting,
            phase: Phase::Working,
        };
        (f, actions)
    }

    /// Begins `request`, stamping its chart file with the time now.
    pub fn start(request: Request) -> (r: (Fulfillment, Vec<Action>))
        requires
            request.currency.wf(),
        ensures
            r.0.wf(),
            r.0.request == request,
            r.0.control() == Control::initial(request.style == ChartStyle::Line),
            r.0.snapshot is Pending,
            r.0.chart == ChartState::Waiting,
            exists|stamp: Seq<char>| r.0.path@ == chart_file_name(request.coin_id@, stamp),
            request.style == ChartStyle::Line ==> r.1@.len() == 1,
            request.style == ChartStyle::Candlestick ==> r.1@.len() == 2,
            r.1@[0] matches Action::FetchSnapshot(id) && id@ == request.coin_id@,
            request.style == ChartStyle::Candlestick ==> (r.1@[1] matches Action::FetchOhlc(id)
                && id@ == request.coin_id@),
    {
        let stamp = time_stamp();
        Fulfillment::start_with_stamp(request, stamp.as_str())
    }

    /// Begins the request that a command makes (see `resolve_request`), stamping its
    /// chart file with the time now.
    pub fn begin(
        command: &str,
        coin_arg: Option<&str>,
        currency_arg: Option<&str>,
        ohlc_arg: Option<bool>,
    ) -> (r: (Fulfillment, Vec<Action>))
        ensures
            r.0.wf(),
            r.0.request.coin_id@ == command_coin(
                command@,
                match coin_arg {
                    Some(a) => Some(a@),
                    None => None,
                },
            ),
            r.0.request.currency.code@ == (match currency_arg {
                Some(code) => if is_iso_code(code@) {
                    code@
                } else {
                    "USD"@
                },
                None => "USD"@,
            }),
            r.0.request.style == (if ohlc_arg == Some(true) {
                ChartStyle::Candlestick
            } else {
                ChartStyle::Line
            }),
            r.0.control() == Control::initial(r.0.request.style == ChartStyle::Line),
            r.0.snapshot is Pending,
            r.0.chart == ChartState::Waiting,
            exists|stamp: Seq<char>| r.0.path@ == chart_file_name(r.0.request.coin_id@, stamp),
            r.0.request.style == ChartStyle::Line ==> r.1@.len() == 1,
            r.0.request.style == ChartStyle::Candlestick ==> r.1@.len() == 2,
            r.1@[0] matches Action::FetchSnapshot(id) && id@ == r.0.request.coin_id@,
            r.0.request.style == ChartStyle::Candlestick ==> (r.1@[1] matches Action::FetchOhlc(id)
                && id@ == r.0.request.coin_id@),
    {
        let request = resolve_request(command, coin_arg, currency_arg, ohlc_arg);
        Fulfillment::start(request)
    }

    fn file_started(&self) -> (r: bool)
        ensures
            r == self.control().file_started(),
    {
        match self.chart {
            ChartState::Waiting => false,
            ChartState::Drawing => true,
            ChartState::Drawn => true,
            ChartState::Failed { file, .. } => file,
        }
    }

    /// Composes the reply of a settled request and hands it over.
    fn settle(&mut self) -> (a: Action)
        requires
            old(self).wf(),
            old(self).phase == Phase::Working,
            old(self).control().settled(),
        ensures
            final(self).request == old(self).request,
            final(self).path == old(self).path,
            final(self).snapshot == old(self).snapshot,
            final(self).chart == old(self).chart,
            final(self).phase == Phase::Sending,
            final(self).wf(),
            a.kind() == ActionKind::Send,
            final(self).is_reply(a),
    {
        let a = match &self.snapshot {
            SnapshotState::Failed(e) => Action::SendText(BotError::Gecko(*e).message()),
            SnapshotState::Fetched(coin) => match self.chart {
                ChartState::Failed { error, .. } => Action::SendText(error.message()),
                _ => match build_message(coin, &self.request.currency) {
                    Ok(card) => Action::SendCard(card, self.path.clone()),
                    Err(e) => Action::SendText(e.message()),
                },
            },
            SnapshotState::Pending => Action::Wait,
        };
        self.phase = Phase::Sending;
        a
    }

    /// After a unit of work settled: hands over the reply once both have.
    fn after_unit(&mut self) -> (a: Action)
        requires
            old(self).wf(),
            old(self).phase == Phase::Working,
        ensures
            final(self).request == old(self).request,
            final(self).path == old(self).path,
            final(self).snapshot == old(self).snapshot,
            final(self).chart == old(self).chart,
            final(self).wf(),
            (final(self).control(), a.kind()) == old(self).control().after_unit(),
            a.kind() == ActionKind::Send ==> final(self).is_reply(a),
    {
        let snapshot_done = match self.snapshot {
            SnapshotState::Pending => false,
            _ => true,
        };
        let chart_done = match self.chart {
            ChartState::Drawn => true,
            ChartState::Failed { .. } => true,
            _ => false,
        };
        if snapshot_done && chart_done {
            self.settle()
        } else {
            Action::Wait
        }
    }

    /// What the snapshot becomes after `event`: the coin it brings, a parse failure for
    /// figures out of decimal range, or the fetch's error.
    pub open spec fn snapshot_after(&self, event: Event) -> SnapshotState {
        if self.phase == Phase::Working && self.snapshot is Pending {
            match event {
                Event::SnapshotFetched(Ok(coin)) => if coin.wf() {
                    SnapshotState::Fetched(coin)
                } else {
                    SnapshotState::Failed(GeckoError::ParseError)
                },
                Event::SnapshotFetched(Err(e)) => SnapshotState::Failed(e),
                _ => self.snapshot,
            }
        } else {
            self.snapshot
        }
    }

    /// What the chart becomes after `event`.
    pub open spec fn chart_after(&self, event: Event) -> ChartState {
        let line = self.request.style == ChartStyle::Line;
        let not_drawn = ChartState::Failed { error: BotError::RenderFailed, file: false };
        if self.phase != Phase::Working {
            self.chart
        } else {
            match event {
                Event::SnapshotFetched(result) => if line && self.snapshot is Pending {
                    match result {
                        Ok(coin) => if !coin.wf() {
                            ChartState::Failed {
                                error: BotError::Gecko(GeckoError::ParseError),
                                file: false,
                            }
                        } else if coin.market_data.sparkline_7d.price@.len() > 0 {
                            ChartState::Drawing
                        } else {
                            not_drawn
                        },
                        Err(e) => ChartState::Failed { error: BotError::Gecko(e), file: false },
                    }
                } else {
                    self.chart
                },
                Event::OhlcFetched(result) => if !line && self.chart == ChartState::Waiting {
                    match result {
                        Ok(series) => if !all_candles_wf(series@) {
                            ChartState::Failed {
                                error: BotError::Gecko(GeckoError::ParseError),
                                file: false,
                            }
                        } else if series@.len() > 0 {
                            ChartState::Drawing
                        } else {
                            not_drawn
                        },
                        Err(e) => ChartState::Failed { error: BotError::Gecko(e), file: false },
                    }
                } else {
                    self.chart
                },
                Event::ChartDrawn(ok) => if self.chart == ChartState::Drawing {
                    if ok {
                        ChartState::Drawn
                    } else {
                        ChartState::Failed { error: BotError::RenderFailed, file: true }
                    }
                } else {
                    self.chart
                },
                _ => self.chart,
            }
        }
    }

    /// The request after `event`.
    pub open spec fn after(self, event: Event) -> Fulfillment {
        Fulfillment {
            request: self.request,
            path: self.path,
            snapshot: self.snapshot_after(event),
            chart: self.chart_after(event),
            phase: self.control().next(event.kind()).0.phase,
        }
    }

    /// A candlestick request does not depend on which of its two fetches reports first:
    /// it ends in the same state, and so owes the same reply, either way.
    pub proof fn lemma_fetch_order(
        self,
        coin: Result<Coin, GeckoError>,
        series: Result<Vec<Candle>, GeckoError>,
    )
        requires
            self.wf(),
            self.request.style == ChartStyle::Candlestick,
            self.phase == Phase::Working,
            self.snapshot is Pending,
            self.chart == ChartState::Waiting,
        ensures
            self.after(Event::SnapshotFetched(coin)).after(Event::OhlcFetched(series)) == self.after(
                Event::OhlcFetched(series),
            ).after(Event::SnapshotFetched(coin)),
    {
    }

    /// Cleanup after a failure: once a unit failed while a chart file was begun, the reply
    /// owed is the error sentence, not a card, and sending it leads to asking for the
    /// file's deletion.
    pub proof fn lemma_failure_cleanup(self, a: Action)
        requires
            self.wf(),
            self.phase == Phase::Sending,
            self.control().file_started(),
            self.snapshot is Failed || self.chart is Failed,
            self.is_reply(a),
        ensures
            a is SendText,
            self.control().next(EventKind::Sent).1 == ActionKind::Delete,
            self.after(Event::ReplySent).phase == Phase::Deleting,
    {
    }

    /// Takes in what the caller reports and says what to do next. The control flow
    /// follows `Control::next`, so `lemma_cleanup` holds of every run; a line chart is
    /// drawn from the snapshot's sparkline, a candlestick chart from the fetched series;
    /// the reply goes out only when both units settled, as a card only when both
    /// succeeded.
    pub fn step(&mut self, event: Event) -> (a: Action)
        requires
            old(self).wf(),
        ensures
            final(self).wf(),
            final(self).request == old(self).request,
            final(self).path == old(self).path,
            (final(self).control(), a.kind()) == old(self).control().next(event.kind()),
            final(self).snapshot == old(self).snapshot_after(event),
            final(self).chart == old(self).chart_after(event),
            a.kind() == ActionKind::Send ==> final(self).is_reply(a),
            a.kind() == ActionKind::Send ==> final(self).control().settled(),
            a matches Action::DrawLine(plan) ==> final(self).snapshot matches SnapshotState::Fetched(
                coin,
            ) && is_line_plan(plan, coin.market_data.sparkline_7d.price@, final(self).path@),
            a matches Action::DrawCandles(plan) ==> event matches Event::OhlcFetched(Ok(series))
                && is_candle_plan(plan, series@, final(self).path@),
            a matches Action::DeleteFile(file) ==> file@ == final(self).path@,
            *final(self) == old(self).after(event),
            old(self).phase == Phase::Deleting && event is FileDeleted ==> a is Finish
                && final(self).phase == Phase::Done,
    {
        match self.phase {
            Phase::Working => self.work(event),
            Phase::Sending => match event {
                Event::ReplySent => {
                    if self.file_started() {
                        self.phase = Phase::Deleting;
                        Action::DeleteFile(self.path.clone())
                    } else {
                        self.phase = Phase::Done;
                        Action::Finish
                    }
                },
                _ => Action::Wait,
            },
            Phase::Deleting => match event {
                Event::FileDeleted(_) => {
                    self.phase = Phase::Done;
                    Action::Finish
                },
                _ => Action::Wait,
            },
            Phase::Done => Action::Wait,
        }
    }

    fn work(&mut self, event: Event) -> (a: Action)
        requires
            old(self).wf(),
            old(self).phase == Phase::Working,
        ensures
            final(self).wf(),
            final(self).request == old(self).request,
            final(self).path == old(self).path,
            (final(self).control(), a.kind()) == old(self).control().next(event.kind()),
            final(self).snapshot == old(self).snapshot_after(event),
            final(self).chart == old(self).chart_after(event),
            a.kind() == ActionKind::Send ==> final(self).is_reply(a),
            a matches Action::DrawLine(plan) ==> final(self).snapshot matches SnapshotState::Fetched(
                coin,
            ) && is_line_plan(plan, coin.market_data.sparkline_7d.price@, final(self).path@),
            a matches Action::DrawCandles(plan) ==> event matches Event::OhlcFetched(Ok(series))
                && is_candle_plan(plan, series@, final(self).path@),
            !(a is DeleteFile),
    {
        let line = self.request.style == ChartStyle::Line;
        match event {
            Event::SnapshotFetched(result) => {
                let pending = match self.snapshot {
                    SnapshotState::Pending => true,
                    _ => false,
                };
                if !pending {
                    return Action::Wait;
                }
                let checked: Result<Coin, GeckoError> = match result {
                    Ok(coin) => if coin.in_range() {
                        Ok(coin)
                    } else {
                        Err(GeckoError::ParseError)
                    },
                    Err(e) => Err(e),
                };
                match checked {
                    Ok(coin) => {
                        if line {
                            let planned = line_plan(
                                &coin.market_data.sparkline_7d.price,
                                self.path.clone(),
                            );
                            self.snapshot = SnapshotState::Fetched(coin);
                            match planned {
                                Some(plan) => {
                                    self.chart = ChartState::Drawing;
                                    Action::DrawLine(plan)
                                },
                                None => {
                                    self.chart = ChartState::Failed {
                                        error: BotError::RenderFailed,
                                        file: false,
                                    };
                                    self.after_unit()
                                },
                            }
                        } else {
                            self.snapshot = SnapshotState::Fetched(coin);
                            self.after_unit()
                        }
                    },
                    Err(e) => {
                        self.snapshot = SnapshotState::Failed(e);
                        if line {
                            self.chart = ChartState::Failed { error: BotError::Gecko(e), file: false };
                        }
                        self.after_unit()
                    },
                }
            },
            Event::OhlcFetched(result) => {
                let waiting = self.chart == ChartState::Waiting;
                if line || !waiting {
                    return Action::Wait;
                }
                match result {
                    Ok(series) => {
                        if !candles_in_range(&series) {
                            self.chart = ChartState::Failed {
                                error: BotError::Gecko(GeckoError::ParseError),
                                file: false,
                            };
                            self.after_unit()
                        } else {
                            match candle_plan(&series, self.path.clone()) {
                                Some(plan) => {
                                    self.chart = ChartState::Drawing;
                                    Action::DrawCandles(plan)
                                },
                                None => {
                                    self.chart = ChartState::Failed {
                                        error: BotError::RenderFailed,
                                        file: false,
                                    };
                                    self.after_unit()
                                },
                            }
                        }
                    },
                    Err(e) => {
                        self.chart = ChartState::Failed { error: BotError::Gecko(e), file: false };
                        self.after_unit()
                    },
                }
            },
            Event::ChartDrawn(ok) => {
                if self.chart != ChartState::Drawing {
                    return Action::Wait;
                }
                self.chart = if ok {
                    ChartState::Drawn
                } else {
                    ChartState::Failed { error: BotError::RenderFailed, file: true }
                };
                self.after_unit()
            },
            _ => Action::Wait,
        }
    }
}

} // verus!
