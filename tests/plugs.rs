use vim_plug::value::DynValue;
use vim_plug::vim_plug::{
    collect_plugs, state_from_probe, state_start, Expression, PlugsError, PlugsQuery, PlugsStep,
    State, StateStep, VimPlugInfo,
};

fn text(s: &str) -> DynValue {
    DynValue::String(s.to_string())
}

fn descriptor(uri: &str) -> DynValue {
    DynValue::Dict(vec![(text("uri"), text(uri)), (text("dir"), text("/tmp/x"))])
}

fn plugs_map(entries: Vec<(&str, DynValue)>) -> DynValue {
    DynValue::Dict(entries.into_iter().map(|(k, v)| (text(k), v)).collect())
}

fn order(names: Vec<DynValue>) -> DynValue {
    DynValue::Array(names)
}

/// Runs a whole query against fixed evaluation results.
fn run(
    ready: bool,
    plugs: Result<DynValue, String>,
    order: Result<DynValue, String>,
) -> (Vec<Expression>, Result<Vec<VimPlugInfo>, PlugsError>) {
    let mut asked = Vec::new();
    let (mut query, mut step) = PlugsQuery::start(ready);
    let mut plugs = Some(plugs);
    let mut order = Some(order);
    loop {
        match step {
            PlugsStep::Finished(r) => return (asked, r),
            PlugsStep::Evaluate(e) => {
                asked.push(e);
                let result = match e {
                    Expression::Plugs => plugs.take().unwrap(),
                    Expression::PlugsOrder => order.take().unwrap(),
                    Expression::LoadedProbe => panic!("unexpected probe"),
                };
                step = query.resume(result);
            }
        }
    }
}

fn pairs(r: &[VimPlugInfo]) -> Vec<(String, String)> {
    r.iter().map(|p| (p.name.clone(), p.uri.clone())).collect()
}

fn example_plugs() -> DynValue {
    plugs_map(vec![
        ("foo", descriptor("https://x/foo")),
        ("bar", descriptor("https://x/bar")),
    ])
}

#[test]
fn example_order_kept_and_unknown_dropped() {
    let (asked, r) = run(
        true,
        Ok(example_plugs()),
        Ok(order(vec![text("bar"), text("foo"), text("baz")])),
    );
    assert_eq!(asked, vec![Expression::Plugs, Expression::PlugsOrder]);
    let r = r.ok().unwrap();
    assert_eq!(
        pairs(&r),
        vec![
            ("bar".to_string(), "https://x/bar".to_string()),
            ("foo".to_string(), "https://x/foo".to_string()),
        ]
    );
}

#[test]
fn consistent_lists_give_one_record_per_name() {
    let (_, r) = run(
        true,
        Ok(example_plugs()),
        Ok(order(vec![text("foo"), text("bar"), text("foo")])),
    );
    let r = r.ok().unwrap();
    assert_eq!(r.len(), 3);
    assert_eq!(r[0].name, "foo");
    assert_eq!(r[1].name, "bar");
    assert_eq!(r[2].name, "foo");
    assert_eq!(r[2].uri, "https://x/foo");
}

#[test]
fn descriptor_without_uri_or_not_map_dropped() {
    let plugs = plugs_map(vec![
        ("a", DynValue::Dict(vec![(text("dir"), text("/a"))])),
        ("b", text("not a map")),
        ("c", DynValue::Dict(vec![(text("uri"), DynValue::Integer(3))])),
        ("d", DynValue::Dict(vec![(DynValue::Integer(1), text("x")), (text("uri"), text("u"))])),
        ("e", descriptor("https://x/e")),
    ]);
    let (_, r) = run(
        true,
        Ok(plugs),
        Ok(order(vec![text("a"), text("b"), text("c"), text("d"), text("e")])),
    );
    assert_eq!(pairs(&r.ok().unwrap()), vec![("e".to_string(), "https://x/e".to_string())]);
}

#[test]
fn non_string_order_items_dropped() {
    let (_, r) = run(
        true,
        Ok(example_plugs()),
        Ok(order(vec![DynValue::Integer(1), DynValue::Nil, text("foo")])),
    );
    assert_eq!(pairs(&r.ok().unwrap()), vec![("foo".to_string(), "https://x/foo".to_string())]);
}

#[test]
fn empty_order_gives_empty_list() {
    let (_, r) = run(true, Ok(example_plugs()), Ok(order(vec![])));
    assert!(r.ok().unwrap().is_empty());
}

#[test]
fn later_entry_of_same_name_wins() {
    let plugs = plugs_map(vec![("foo", descriptor("first")), ("foo", descriptor("second"))]);
    let r = collect_plugs(
        match &plugs {
            DynValue::Dict(e) => e,
            _ => unreachable!(),
        },
        &vec![text("foo")],
    );
    assert_eq!(pairs(&r), vec![("foo".to_string(), "second".to_string())]);
}

#[test]
fn not_ready_asks_nothing() {
    let (asked, r) = run(false, Ok(example_plugs()), Ok(order(vec![])));
    assert!(asked.is_empty());
    let e = r.err().unwrap();
    assert!(matches!(e, PlugsError::NotInitialized));
    assert_eq!(e.message(), "Nvim not initialized");
    assert!(matches!(state_start(false), StateStep::Finished(State::Unknown)));
    assert!(matches!(state_start(true), StateStep::Evaluate(Expression::LoadedProbe)));
}

#[test]
fn plugs_evaluation_failure() {
    let (asked, r) = run(true, Err("boom".to_string()), Ok(order(vec![])));
    assert_eq!(asked, vec![Expression::Plugs]);
    assert_eq!(r.err().unwrap().message(), "Can't retrive g:plugs map: boom");
}

#[test]
fn plugs_not_a_map() {
    let (asked, r) = run(true, Ok(order(vec![])), Ok(order(vec![])));
    assert_eq!(asked, vec![Expression::Plugs]);
    let e = r.err().unwrap();
    assert!(matches!(e, PlugsError::PlugsNotMap));
    assert_eq!(e.message(), "Can't retrive g:plugs map");
}

#[test]
fn plugs_key_not_string() {
    let plugs = DynValue::Dict(vec![(DynValue::Integer(1), descriptor("u"))]);
    let (_, r) = run(true, Ok(plugs), Ok(order(vec![])));
    let e = r.err().unwrap();
    assert!(matches!(e, PlugsError::PlugsKeyNotString));
    assert_eq!(e.message(), "Can't convert map key to string");
}

#[test]
fn order_evaluation_failure() {
    let (asked, r) = run(true, Ok(example_plugs()), Err("lost".to_string()));
    assert_eq!(asked, vec![Expression::Plugs, Expression::PlugsOrder]);
    assert_eq!(r.err().unwrap().message(), "lost");
}

#[test]
fn order_not_an_array() {
    let (_, r) = run(true, Ok(example_plugs()), Ok(text("foo")));
    let e = r.err().unwrap();
    assert!(matches!(e, PlugsError::OrderNotArray));
    assert_eq!(e.message(), "Can't find g:plugs_order array");
}

#[test]
fn repeated_query_is_identical() {
    let first = run(true, Ok(example_plugs()), Ok(order(vec![text("bar"), text("foo")])));
    let second = run(true, Ok(example_plugs()), Ok(order(vec![text("bar"), text("foo")])));
    assert_eq!(pairs(&first.1.ok().unwrap()), pairs(&second.1.ok().unwrap()));
}

#[test]
fn probe_one_is_loaded() {
    let o = state_from_probe(Ok(DynValue::Integer(1)));
    assert_eq!(o.state, State::AlreadyLoaded);
    assert!(o.report.is_none());
}

#[test]
fn probe_zero_is_unknown() {
    assert_eq!(state_from_probe(Ok(DynValue::Integer(0))).state, State::Unknown);
    assert_eq!(state_from_probe(Ok(DynValue::Integer(-4))).state, State::Unknown);
}

#[test]
fn probe_failure_is_unknown_and_reported() {
    let o = state_from_probe(Err("closed".to_string()));
    assert_eq!(o.state, State::Unknown);
    assert_eq!(o.report, Some("closed".to_string()));
}

#[test]
fn probe_non_integer_is_unknown() {
    assert_eq!(state_from_probe(Ok(text("1"))).state, State::Unknown);
    assert_eq!(state_from_probe(Ok(DynValue::Nil)).state, State::Unknown);
    assert_eq!(state_from_probe(Ok(DynValue::Boolean(true))).state, State::Unknown);
    assert_eq!(state_from_probe(Ok(DynValue::Integer(1i128 << 63))).state, State::Unknown);
    assert_eq!(state_from_probe(Ok(DynValue::Integer(i64::MAX as i128))).state, State::AlreadyLoaded);
}

#[test]
fn expression_texts() {
    assert_eq!(Expression::Plugs.text(), "g:plugs");
    assert_eq!(Expression::PlugsOrder.text(), "g:plugs_order");
    assert_eq!(Expression::LoadedProbe.text(), "exists('g:loaded_plug')");
}

#[test]
fn value_projections() {
    assert_eq!(text("a").as_str().map(|s| s.as_str()), Some("a"));
    assert!(DynValue::Nil.as_str().is_none());
    assert_eq!(DynValue::Integer(-7).as_i64(), Some(-7));
    assert_eq!(order(vec![DynValue::Nil]).as_array().map(|a| a.len()), Some(1));
    assert!(text("x").as_map().is_none());
}

#[test]
fn plug_info_new_keeps_fields() {
    let p = VimPlugInfo::new("n".to_string(), "u".to_string());
    assert_eq!(p.name, "n");
    assert_eq!(p.uri, "u");
}
