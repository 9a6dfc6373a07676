use chart_panels::axis::{AxisRanges, AxisSelector, Persistence, PlotFlags};
use chart_panels::error::PlotError;
use chart_panels::panel::{ChartPanel, PanelSize, Phase};
use chart_panels::style::StyleStack;
use chart_panels::ticks::{TickMark, TickSet, TickTable};

fn plain(position: f64) -> TickMark {
    TickMark { position: position.to_bits(), label: None }
}

fn named(position: f64, text: &str) -> TickMark {
    TickMark { position: position.to_bits(), label: Some(text.to_string()) }
}

#[test]
fn tick_set_hands_out_positions_and_texts() {
    let set = TickSet { marks: vec![named(1.1, "A"), plain(1.25), named(1.4, "B")], show_default: false };
    assert_eq!(set.positions(), vec![1.1f64.to_bits(), 1.25f64.to_bits(), 1.4f64.to_bits()]);
    assert_eq!(set.texts(), vec!["A".to_string(), String::new(), "B".to_string()]);
    assert!(set.is_labelled());
}

#[test]
fn tick_set_without_texts_is_not_labelled() {
    let set = TickSet { marks: vec![plain(2.2), plain(2.5), plain(2.8)], show_default: true };
    assert!(!set.is_labelled());
    assert_eq!(set.texts(), vec![String::new(), String::new(), String::new()]);
    let empty = TickSet { marks: vec![], show_default: false };
    assert!(!empty.is_labelled());
    assert_eq!(empty.positions(), Vec::<u64>::new());
    let last = TickSet { marks: vec![plain(1.0), named(2.0, "")], show_default: false };
    assert!(last.is_labelled());
}

#[test]
fn tick_table_keeps_each_axis_apart() {
    let mut table = TickTable::empty();
    assert!(table.get(AxisSelector::X).is_none());
    table.set(AxisSelector::Y2, Some(TickSet { marks: vec![plain(3.0)], show_default: true }));
    assert!(table.get(AxisSelector::X).is_none());
    assert!(table.get(AxisSelector::Y1).is_none());
    assert!(table.get(AxisSelector::Y3).is_none());
    let set = table.get(AxisSelector::Y2).unwrap();
    assert_eq!(set.positions(), vec![3.0f64.to_bits()]);
    assert!(set.show_default);
    table.set(AxisSelector::Y2, None);
    assert!(table.get(AxisSelector::Y2).is_none());
}

#[test]
fn panel_takes_ticks_until_it_is_drawn() {
    let mut panel = ChartPanel::new();
    let size = PanelSize { width: 300.0f32.to_bits(), height: 200.0f32.to_bits() };
    panel
        .configure(size, "Configured line plot".to_string(), AxisRanges::free(), Persistence::Always, PlotFlags::none())
        .unwrap();
    assert!(panel.ticks(AxisSelector::X).is_none());
    assert_eq!(
        panel.set_ticks(AxisSelector::X, vec![plain(2.2), plain(2.5), plain(2.8)], false),
        Ok(())
    );
    assert_eq!(
        panel.set_ticks(AxisSelector::Y1, vec![named(1.1, "A"), named(1.4, "B")], false),
        Ok(())
    );
    let x = panel.ticks(AxisSelector::X).unwrap();
    assert_eq!(x.positions(), vec![2.2f64.to_bits(), 2.5f64.to_bits(), 2.8f64.to_bits()]);
    assert!(!x.is_labelled());
    assert!(!x.show_default);
    let y = panel.ticks(AxisSelector::Y1).unwrap();
    assert_eq!(y.texts(), vec!["A".to_string(), "B".to_string()]);
    assert!(panel.ticks(AxisSelector::Y2).is_none());

    let styles = StyleStack::new();
    panel.begin_draw(&styles).unwrap();
    assert_eq!(
        panel.set_ticks(AxisSelector::X, vec![plain(9.0)], true),
        Err(PlotError::InvalidTransition)
    );
    assert_eq!(panel.ticks(AxisSelector::X).unwrap().positions().len(), 3);
    assert_eq!(panel.phase(), Phase::Drawing);
}

#[test]
fn ticks_on_a_blank_panel_are_refused() {
    let mut panel = ChartPanel::new();
    assert_eq!(
        panel.set_ticks(AxisSelector::Y3, vec![plain(1.0)], true),
        Err(PlotError::InvalidTransition)
    );
    assert_eq!(panel.phase(), Phase::Unconfigured);
    assert!(panel.ticks(AxisSelector::Y3).is_none());
}

#[test]
fn configuration_clears_ticks() {
    let mut panel = ChartPanel::new();
    let size = PanelSize { width: 300.0f32.to_bits(), height: 200.0f32.to_bits() };
    panel
        .configure(size, "first".to_string(), AxisRanges::free(), Persistence::Always, PlotFlags::none())
        .unwrap();
    panel.set_ticks(AxisSelector::X, vec![plain(1.0)], false).unwrap();
    assert!(panel.ticks(AxisSelector::X).is_some());
    panel
        .configure(size, "again".to_string(), AxisRanges::free(), Persistence::Always, PlotFlags::none())
        .unwrap();
    assert!(panel.ticks(AxisSelector::X).is_none());
}
