use blackbox_log::filter::{AppliedFilter, FieldFilter, Filter};
use blackbox_log::frame_defs::{FrameProperty, MainBuilder, MainField};

fn main_frame_fields() -> Vec<MainField<'static>> {
    let mut builder = MainBuilder::new();
    builder.update(
        true,
        FrameProperty::Name,
        "loopIteration,time,rcCommand[0],rcCommand[1],rcCommand[2],rcCommand[3],gyroADC[0]",
    );
    builder.update(true, FrameProperty::Predictor, "0,0,0,0,0,0,0");
    builder.update(false, FrameProperty::Predictor, "6,2,1,1,1,1,1");
    builder.update(true, FrameProperty::Encoding, "1,1,1,1,1,1,1");
    builder.update(false, FrameProperty::Encoding, "9,0,0,0,0,0,0");
    builder.update(true, FrameProperty::Signed, "0,0,1,1,1,1,1");
    builder.build().unwrap()
}

#[test]
fn only_fields_matches_indexed_fields_by_base_name() {
    let fields = main_frame_fields();
    let names: Vec<&str> = fields.iter().map(|f| f.raw_name).collect();
    let filter = Filter::OnlyFields(FieldFilter::from_names(&["rcCommand"])).apply(&names);
    let field_names = filter.0.iter().map(|index| fields[*index].raw_name).collect::<Vec<_>>();

    assert_eq!(
        field_names,
        ["rcCommand[0]", "rcCommand[1]", "rcCommand[2]", "rcCommand[3]"]
    );
}

#[test]
fn unfiltered_keeps_every_field() {
    let names = ["a", "b[0]", "b[1]"];
    let applied = Filter::Unfiltered.apply(&names);
    assert_eq!(vec![0, 1, 2], applied.0);
}

#[test]
fn only_required_keeps_nothing_named() {
    let names = ["time", "motor[0]"];
    let applied = Filter::only_required().apply(&names);
    assert!(applied.0.is_empty());
}

#[test]
fn filter_keeps_exact_and_indexed_names() {
    let filter = FieldFilter::from_names(&["time", "motor"]);
    assert!(filter.keeps("time"));
    assert!(filter.keeps("motor[3]"));
    assert!(!filter.keeps("motors"));
    assert!(!filter.keeps("gyroADC[0]"));
}

#[test]
fn applied_filter_indices() {
    let applied = AppliedFilter::new_unfiltered(3);
    assert_eq!(3, applied.len());
    assert_eq!(Some(2), applied.get(2));
    assert_eq!(None, applied.get(3));
}
