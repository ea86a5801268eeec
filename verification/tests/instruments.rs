use tuidash::actions::{Action, ActionQueue};
use tuidash::instruments::{AssetClass, Instrument, InstrumentList};
use tuidash::keys::KeyCode;

fn catalogue() -> Vec<Instrument> {
    vec![
        Instrument { symbol: "EURUSD".to_string(), asset_class: AssetClass::Forex },
        Instrument { symbol: "AAPL".to_string(), asset_class: AssetClass::Stock },
    ]
}

#[test]
fn asset_class_labels() {
    assert_eq!(AssetClass::Forex.label(), "Forex");
    assert_eq!(AssetClass::Stock.label(), "Stock");
}

#[test]
fn instrument_getters() {
    let i = Instrument { symbol: "EURUSD".to_string(), asset_class: AssetClass::Forex };
    assert_eq!(i.symbol(), "EURUSD");
    assert_eq!(i.asset_class(), AssetClass::Forex);
}

#[test]
fn new_list_selects_first_entry() {
    let list = InstrumentList::new(catalogue());
    assert_eq!(list.selected, Some(0));
    assert_eq!(list.scroll_position, 0);
    assert!(list.chart.is_none());
}

#[test]
fn new_list_over_empty_catalogue_has_no_selection() {
    let list = InstrumentList::new(Vec::new());
    assert_eq!(list.selected, None);
}

#[test]
fn row_moves_wrap_and_track_scroll() {
    let mut list = InstrumentList::new(catalogue());
    list.next_row();
    assert_eq!(list.selected, Some(1));
    assert_eq!(list.scroll_position, 1);
    list.next_row();
    assert_eq!(list.selected, Some(0));
    assert_eq!(list.scroll_position, 0);
    list.previous_row();
    assert_eq!(list.selected, Some(1));
    assert_eq!(list.scroll_position, 1);
}

#[test]
fn selection_keys_request_chart_refresh() {
    let mut list = InstrumentList::new(catalogue());
    let mut q = ActionQueue::new();
    list.on_event(KeyCode::Char('j'), &mut q);
    list.on_event(KeyCode::Char('k'), &mut q);
    assert_eq!(q.pop_front(), Some(Action::RequestChartRefresh));
    assert_eq!(q.pop_front(), Some(Action::RequestChartRefresh));
    assert_eq!(q.pop_front(), None);
    assert_eq!(list.selected, Some(0));
}

#[test]
fn unbound_keys_do_nothing() {
    let mut list = InstrumentList::new(catalogue());
    let mut q = ActionQueue::new();
    list.on_event(KeyCode::Char('z'), &mut q);
    list.on_event(KeyCode::Esc, &mut q);
    assert_eq!(q.len(), 0);
    assert_eq!(list.selected, Some(0));
}

#[test]
fn scroll_content_length_counts_rows_beyond_first() {
    assert_eq!(InstrumentList::new(catalogue()).scroll_content_length(), 1);
    assert_eq!(InstrumentList::new(Vec::new()).scroll_content_length(), 0);
}
