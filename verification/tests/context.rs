use datalogic_rs::context::{ContextFrame, ContextRef, DataContextStack, IterGuard};
use datalogic_rs::value::DataValue;

#[test]
fn lifecycle_indexed() {
    let root_val = DataValue::Null;
    let a = DataValue::Number(1);
    let b = DataValue::Number(2);
    let mut ctx = DataContextStack::new(&root_val);
    assert_eq!(ctx.depth(), 0);
    assert!(ctx.current().root_data().is_some(), "root at depth 0");

    ctx.push_with_index(&a, 0);
    assert_eq!(ctx.depth(), 1);
    assert_eq!(ctx.current().get_index(), Some(0));

    ctx.replace_top_data(&b, 1);
    assert_eq!(ctx.current().get_index(), Some(1));

    ctx.pop();
    assert_eq!(ctx.depth(), 0);
}

#[test]
fn lifecycle_keyed() {
    let root_val = DataValue::Null;
    let a = DataValue::Bool(true);
    let b = DataValue::Bool(false);
    let mut ctx = DataContextStack::new(&root_val);

    ctx.push_with_key_index(&a, 0, "k1");
    assert_eq!(ctx.current().get_key(), Some("k1"));

    ctx.replace_top_key_data(&b, 1, "k2");
    assert_eq!(ctx.current().get_key(), Some("k2"));
    assert_eq!(ctx.current().get_index(), Some(1));
}

#[test]
fn lifecycle_reduce() {
    let root_val = DataValue::Null;
    let cur = DataValue::Number(1);
    let acc = DataValue::Number(0);
    let mut ctx = DataContextStack::new(&root_val);

    ctx.push_reduce(&cur, &acc);
    assert_eq!(ctx.depth(), 1);

    if let ContextRef::Frame(f) = ctx.current() {
        assert!(f.get_reduce_current().is_some());
        assert!(f.get_reduce_accumulator().is_some());
    } else {
        panic!("expected frame");
    }
}

#[test]
fn get_at_level_walks_up() {
    let root_val = DataValue::Null;
    let a = DataValue::Number(10);
    let b = DataValue::Number(20);
    let mut ctx = DataContextStack::new(&root_val);

    ctx.push_with_index(&a, 0);
    ctx.push_with_index(&b, 0);
    assert_eq!(ctx.depth(), 2);

    // Level 0 = current (b)
    assert!(ctx.get_at_level(0).and_then(|r| r.frame_data()).is_some());
    // Level 1 = parent (a)
    assert!(ctx.get_at_level(1).and_then(|r| r.frame_data()).is_some());
    // Level 2 = root
    assert!(ctx.get_at_level(2).and_then(|r| r.root_data()).is_some());
    // Level 5 (overflow) = root
    assert!(ctx.get_at_level(5).and_then(|r| r.root_data()).is_some());
}

#[test]
fn iter_guard_pushes_then_pops_indexed() {
    let root_val = DataValue::Null;
    let a = DataValue::Number(1);
    let b = DataValue::Number(2);
    let ctx = DataContextStack::new(&root_val);
    assert_eq!(ctx.depth(), 0);

    let mut g = IterGuard::new(ctx);
    g.step_indexed(&a, 0);
    assert_eq!(g.stack().depth(), 1);
    assert_eq!(g.stack().current().get_index(), Some(0));
    g.step_indexed(&b, 1);
    assert_eq!(g.stack().depth(), 1, "replace, not push");
    assert_eq!(g.stack().current().get_index(), Some(1));
    let ctx = g.release();
    assert_eq!(ctx.depth(), 0, "drop pops");
}

#[test]
fn iter_guard_no_push_no_pop() {
    let root_val = DataValue::Null;
    let ctx = DataContextStack::new(&root_val);
    assert_eq!(ctx.depth(), 0);
    let g = IterGuard::new(ctx);
    // empty input, no step_* calls
    let ctx = g.release();
    assert_eq!(ctx.depth(), 0, "drop without push is a no-op");
}

#[test]
fn iter_guard_keyed_and_reduce() {
    let root_val = DataValue::Null;
    let a = DataValue::Bool(true);
    let b = DataValue::Bool(false);
    let cur = DataValue::Number(1);
    let acc = DataValue::Number(0);
    let ctx = DataContextStack::new(&root_val);

    let mut g = IterGuard::new(ctx);
    g.step_keyed(&a, 0, "k1");
    assert_eq!(g.stack().current().get_key(), Some("k1"));
    g.step_keyed(&b, 1, "k2");
    assert_eq!(g.stack().current().get_key(), Some("k2"));
    assert_eq!(g.stack().current().get_index(), Some(1));
    let ctx = g.release();
    assert_eq!(ctx.depth(), 0);

    let mut g = IterGuard::new(ctx);
    g.step_reduce(&cur, &acc);
    assert_eq!(g.stack().depth(), 1);
    g.step_reduce(&acc, &cur); // replace, not push
    assert_eq!(g.stack().depth(), 1);
    let ctx = g.release();
    assert_eq!(ctx.depth(), 0);
}

#[test]
fn error_path_round_trip() {
    let root_val = DataValue::Null;
    let mut ctx = DataContextStack::new(&root_val);

    ctx.push_error_step(1);
    ctx.push_error_step(2);
    ctx.push_error_step(3);
    assert_eq!(ctx.error_path_len(), 3);

    ctx.truncate_error_path(1);
    let p = ctx.take_error_path();
    assert_eq!(p, vec![1]);
}

#[test]
fn context_level_counts_from_the_top() {
    let root_val = DataValue::Number(0);
    let a = DataValue::Number(10);
    let b = DataValue::Number(20);
    let c = DataValue::Number(30);
    let mut ctx = DataContextStack::new(&root_val);
    ctx.push_with_index(&a, 0);
    ctx.push_with_index(&b, 1);
    ctx.push(&c);
    // Level 0 is the top frame, level 1 its parent, level 2 the one below.
    assert_eq!(ctx.get_at_level(0).and_then(|r| r.frame_data()), Some(&c));
    assert_eq!(ctx.get_at_level(1).and_then(|r| r.frame_data()), Some(&b));
    assert_eq!(ctx.get_at_level(2).and_then(|r| r.frame_data()), Some(&a));
    // Negative levels count the same distance.
    assert_eq!(ctx.get_at_level(-1).and_then(|r| r.frame_data()), Some(&b));
    assert_eq!(ctx.get_at_level(3).and_then(|r| r.root_data()), Some(&root_val));
    assert_eq!(ctx.get_at_level(isize::MIN).and_then(|r| r.root_data()), Some(&root_val));
    assert_eq!(ctx.root_input(), &root_val);
}

#[test]
fn push_then_pop_returns_the_frame() {
    let root_val = DataValue::Null;
    let a = DataValue::Number(7);
    let mut ctx = DataContextStack::new(&root_val);
    assert!(ctx.pop().is_none());
    ctx.push_with_index(&a, 3);
    match ctx.pop() {
        Some(ContextFrame::Indexed { data, index }) => {
            assert_eq!(data, &a);
            assert_eq!(index, 3);
        }
        _ => panic!("expected the pushed frame"),
    }
    assert_eq!(ctx.depth(), 0);
    // Replacing with no frame pushed does nothing.
    ctx.replace_top_data(&a, 1);
    assert_eq!(ctx.depth(), 0);
}

#[test]
fn truncate_error_path_longer_than_path_keeps_it() {
    let root_val = DataValue::Null;
    let mut ctx = DataContextStack::new(&root_val);
    ctx.push_error_step(5);
    ctx.truncate_error_path(10);
    assert_eq!(ctx.take_error_path(), vec![5]);
    assert_eq!(ctx.error_path_len(), 0);
}
