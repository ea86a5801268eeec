//! The Instruments view: a browsable catalogue of financial instruments
//! with wraparound selection, which asks for a chart refresh through the
//! action queue whenever the selection moves, and records the value-axis
//! bounds of the most recently completed chart render.

use vstd::prelude::*;

use crate::actions::{Action, ActionQueue, Screen};
use crate::chart::{chart_viable, plan_chart, series_high, series_low, CellRect, ChartPlan, OhlcPoint};
use crate::keys::KeyCode;
use crate::selection::{select_next, select_next_spec, select_prev, select_prev_spec, sel_wf};

verus! {

/// Rows per catalogue entry in the rendered table, used to derive the
/// scrollbar position from the selected index.
pub const ITEM_HEIGHT: usize = 1;

/// The asset class of an instrument.
#[derive(Clone, Copy, PartialEq, Eq, Structural, Debug)]
pub enum AssetClass {
    /// A currency pair.
    Forex,
    /// A company share.
    Stock,
}

impl AssetClass {
    /// The class's display name.
    pub fn label(&self) -> (r: &'static str)
        ensures
            *self == AssetClass::Forex ==> r@ == "Forex"@,
            *self == AssetClass::Stock ==> r@ == "Stock"@,
    {
        match self {
            AssetClass::Forex => "Forex",
            AssetClass::Stock => "Stock",
        }
    }
}

/// One instrument of the static catalogue: immutable reference data.
pub struct Instrument {
    /// The instrument's ticker symbol.
    pub symbol: String,
    /// The instrument's asset class.
    pub asset_class: AssetClass,
}

/// The mathematical state of one catalogue entry.
#[verifier::ext_equal]
pub struct InstrumentModel {
    /// The instrument's ticker symbol.
    pub symbol: Seq<char>,
    /// The instrument's asset class.
    pub asset_class: AssetClass,
}

impl View for Instrument {
    type V = InstrumentModel;

    open spec fn view(&self) -> InstrumentModel {
        InstrumentModel { symbol: self.symbol@, asset_class: self.asset_class }
    }
}

impl DeepView for Instrument {
    type V = InstrumentModel;

    open spec fn deep_view(&self) -> InstrumentModel {
        self.view()
    }
}

impl Instrument {
    /// The instrument's ticker symbol.
    pub fn symbol(&self) -> (r: &str)
        ensures
            r@ == self@.symbol,
    {
        self.symbol.as_str()
    }

    /// The instrument's asset class.
    pub fn asset_class(&self) -> (r: AssetClass)
        ensures
            r == self@.asset_class,
    {
        self.asset_class
    }
}

/// What the most recently completed chart render was computed from: the
/// instrument and the value-axis bounds of its series at that time.
#[derive(Clone, Copy, PartialEq, Eq, Structural, Debug)]
pub struct ChartMeta {
    /// Index into the catalogue of the instrument the chart shows.
    pub instrument_ix: usize,
    /// Lower value-axis bound of the rendered chart.
    pub y_min: i64,
    /// Upper value-axis bound of the rendered chart.
    pub y_max: i64,
}

/// The mathematical state of the Instruments view.
#[verifier::ext_equal]
pub struct InstrumentsModel {
    /// The catalogue entries, in catalogue order.
    pub instruments: Seq<InstrumentModel>,
    /// The selection cursor.
    pub selected: Option<usize>,
    /// The scrollbar position, following the selected index.
    pub scroll_position: usize,
    /// The most recently completed chart render, if any.
    pub chart: Option<ChartMeta>,
}

/// The Instruments view state.
pub struct InstrumentList {
    /// The catalogue entries, loaded once at startup.
    pub instruments: Vec<Instrument>,
    /// The selection cursor over `instruments`.
    pub selected: Option<usize>,
    /// The scrollbar position, following the selected index.
    pub scroll_position: usize,
    /// The most recently completed chart render, if any.
    pub chart: Option<ChartMeta>,
}

impl View for InstrumentList {
    type V = InstrumentsModel;

    open spec fn view(&self) -> InstrumentsModel {
        InstrumentsModel {
            instruments: self.instruments.deep_view(),
            selected: self.selected,
            scroll_position: self.scroll_position,
            chart: self.chart,
        }
    }
}

/// The Instruments view invariant: the selection cursor is valid for the
/// catalogue, and a recorded chart render points at a catalogue entry.
pub open spec fn instruments_wf(m: InstrumentsModel) -> bool {
    &&& sel_wf(m.selected, m.instruments.len())
    &&& match m.chart {
        Some(cm) => cm.instrument_ix < m.instruments.len(),
        None => true,
    }
}

/// The scrollbar position for a selection: it follows the selected index
/// and stays put while nothing is selected.
pub open spec fn scroll_for(sel: Option<usize>, old_scroll: usize) -> usize {
    match sel {
        Some(i) => (i * ITEM_HEIGHT) as usize,
        None => old_scroll,
    }
}

/// The Instruments view after one forward selection step.
pub open spec fn instruments_next_row(m: InstrumentsModel) -> InstrumentsModel {
    let sel = select_next_spec(m.selected, m.instruments.len() as usize);
    InstrumentsModel { selected: sel, scroll_position: scroll_for(sel, m.scroll_position), ..m }
}

/// The Instruments view after one backward selection step.
pub open spec fn instruments_prev_row(m: InstrumentsModel) -> InstrumentsModel {
    let sel = select_prev_spec(m.selected, m.instruments.len() as usize);
    InstrumentsModel { selected: sel, scroll_position: scroll_for(sel, m.scroll_position), ..m }
}

/// One step of the Instruments state machine: the new state and the
/// actions the view emits for the dispatcher. Moving the selection also
/// requests a chart refresh, decoupling input latency from render latency.
pub open spec fn instruments_step(m: InstrumentsModel, key: KeyCode) -> (
    InstrumentsModel,
    Seq<Action>,
) {
    if key == KeyCode::Char('q') {
        (m, seq![Action::Quit])
    } else if key == KeyCode::Char('j') || key == KeyCode::Down {
        (instruments_next_row(m), seq![Action::RequestChartRefresh])
    } else if key == KeyCode::Char('k') || key == KeyCode::Up {
        (instruments_prev_row(m), seq![Action::RequestChartRefresh])
    } else if key == KeyCode::Char('N') {
        (m, seq![Action::ChangeView(Screen::Notes)])
    } else {
        (m, Seq::<Action>::empty())
    }
}

impl InstrumentList {
    /// The view invariant, see [`instruments_wf`].
    pub open spec fn wf(&self) -> bool {
        instruments_wf(self@)
    }

    /// A fresh Instruments view over the given catalogue: the first entry
    /// selected (none for an empty catalogue), no chart rendered yet.
    pub fn new(instruments: Vec<Instrument>) -> (r: InstrumentList)
        ensures
            r@.instruments =~~= instruments.deep_view(),
            r@.selected == (if instruments@.len() > 0 {
                Some(0usize)
            } else {
                None::<usize>
            }),
            r@.scroll_position == 0,
            r@.chart is None,
            r.wf(),
    {
        let selected = if instruments.len() > 0 {
            Some(0)
        } else {
            None
        };
        InstrumentList { instruments, selected, scroll_position: 0, chart: None }
    }

    /// Move the selection one row forward, with wraparound, and keep the
    /// scrollbar on it.
    pub fn next_row(&mut self)
        requires
            old(self).wf(),
        ensures
            final(self)@ =~~= instruments_next_row(old(self)@),
            final(self).wf(),
    {
        self.selected = select_next(self.selected, self.instruments.len());
        if let Some(i) = self.selected {
            self.scroll_position = i * ITEM_HEIGHT;
        }
    }

    /// Move the selection one row backward, with wraparound, and keep the
    /// scrollbar on it.
    pub fn previous_row(&mut self)
        requires
            old(self).wf(),
        ensures
            final(self)@ =~~= instruments_prev_row(old(self)@),
            final(self).wf(),
    {
        self.selected = select_prev(self.selected, self.instruments.len());
        if let Some(i) = self.selected {
            self.scroll_position = i * ITEM_HEIGHT;
        }
    }

    /// Consume one key press, stepping the state machine and enqueueing
    /// the emitted actions.
    pub fn on_event(&mut self, key: KeyCode, q: &mut ActionQueue)
        requires
            old(self).wf(),
        ensures
            final(self)@ =~~= instruments_step(old(self)@, key).0,
            final(q)@ =~= old(q)@ + instruments_step(old(self)@, key).1,
            final(self).wf(),
    {
        if key == KeyCode::Char('q') {
            q.push(Action::Quit);
        } else if key == KeyCode::Char('j') || key == KeyCode::Down {
            self.next_row();
            q.push(Action::RequestChartRefresh);
        } else if key == KeyCode::Char('k') || key == KeyCode::Up {
            self.previous_row();
            q.push(Action::RequestChartRefresh);
        } else if key == KeyCode::Char('N') {
            q.push(Action::ChangeView(Screen::Notes));
        }
    }

    /// The scrollbar's content length for the catalogue table: one row per
    /// entry beyond the first, and none at all for an empty catalogue.
    pub fn scroll_content_length(&self) -> (r: usize)
        ensures
            r == (if self@.instruments.len() > 0 {
                (self@.instruments.len() - 1) * ITEM_HEIGHT
            } else {
                0int
            }),
    {
        if self.instruments.len() == 0 {
            0
        } else {
            (self.instruments.len() - 1) * ITEM_HEIGHT
        }
    }

    /// The chart refresh itself happens outside the input path; consuming
    /// the action here leaves the view unchanged.
    pub fn on_action(&mut self, _action: Option<Action>)
        ensures
            final(self)@ == old(self)@,
    {
    }

    /// Complete a chart render for the currently selected instrument,
    /// whose time series is `points`: plan the render (pixel size,
    /// value-axis bounds, zeroed RGB buffer) and record what it was
    /// computed from. With no selection, an empty series or a degenerate
    /// region, no plan is produced and the previous render state is left
    /// untouched.
    pub fn refresh_chart(
        &mut self,
        points: &Vec<OhlcPoint>,
        rect: &CellRect,
        font_size: (u16, u16),
    ) -> (r: Option<ChartPlan>)
        requires
            old(self).wf(),
        ensures
            r is Some <==> (old(self)@.selected is Some && chart_viable(
                points@,
                *rect,
                font_size,
            )),
            r is None ==> final(self)@ =~~= old(self)@,
            r matches Some(p) ==> {
                &&& p.wf()
                &&& p.y_min == series_low(points@)
                &&& p.y_max == series_high(points@)
                &&& p.width_px == rect.width as int * font_size.0 as int
                &&& p.height_px == rect.height as int * font_size.1 as int
                &&& forall|i: int| 0 <= i < p.buffer@.len() ==> p.buffer@[i] == 0
                &&& final(self)@ =~~= (InstrumentsModel {
                    chart: Some(
                        ChartMeta {
                            instrument_ix: old(self)@.selected->0,
                            y_min: p.y_min,
                            y_max: p.y_max,
                        },
                    ),
                    ..old(self)@
                })
            },
            final(self).wf(),
    {
        let ix = match self.selected {
            Some(ix) => ix,
            None => {
                return None;
            },
        };
        match plan_chart(points, rect, font_size) {
            Some(p) => {
                self.chart = Some(
                    ChartMeta { instrument_ix: ix, y_min: p.y_min, y_max: p.y_max },
                );
                Some(p)
            },
            None => None,
        }
    }
}

} // verus!
