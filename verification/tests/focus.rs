use newport_imgui::{Context, Id, InputState};

fn holders(context: &Context, ids: &[Id]) -> usize {
    ids.iter().filter(|id| context.is_focused(**id)).count()
}

fn hovered(context: &Context, ids: &[Id]) -> usize {
    ids.iter().filter(|id| context.is_hovered(**id)).count()
}

#[test]
fn fresh_context_has_no_holder() {
    let context = Context::new(InputState::idle());
    assert_eq!(context.focused, None);
    assert_eq!(context.hovered, None);
    assert!(context.layers.is_empty());
    assert!(!context.is_focused(Id::make("a")));
    assert!(!context.is_hovered(Id::make("a")));
}

#[test]
fn focus_is_exclusive_at_every_point() {
    let ids = [Id::make("a"), Id::make("b"), Id::make("c")];
    let mut context = Context::new(InputState::idle());
    assert_eq!(holders(&context, &ids), 0);
    context.focus(ids[0]);
    assert_eq!(holders(&context, &ids), 1);
    context.focus(ids[1]);
    assert_eq!(holders(&context, &ids), 1);
    context.force_focus(ids[2]);
    assert_eq!(holders(&context, &ids), 1);
    assert!(context.is_focused(ids[2]));
    context.unfocus(ids[0]);
    assert_eq!(holders(&context, &ids), 1);
    context.unfocus(ids[2]);
    assert_eq!(holders(&context, &ids), 0);
    context.force_focus(ids[1]);
    context.force_focus(ids[0]);
    assert_eq!(holders(&context, &ids), 1);
    assert!(context.is_focused(ids[0]));
}

#[test]
fn hover_is_exclusive_at_every_point() {
    let ids = [Id::make("a"), Id::make("b"), Id::make("c")];
    let mut context = Context::new(InputState::idle());
    assert_eq!(hovered(&context, &ids), 0);
    context.hover(ids[0]);
    assert_eq!(hovered(&context, &ids), 1);
    context.hover(ids[1]);
    assert_eq!(hovered(&context, &ids), 1);
    assert!(context.is_hovered(ids[1]));
    assert!(!context.unhover(ids[0]));
    assert_eq!(hovered(&context, &ids), 1);
    assert!(context.unhover(ids[1]));
    assert_eq!(hovered(&context, &ids), 0);
}

#[test]
fn first_claim_wins() {
    let a = Id::make("a");
    let b = Id::make("b");
    assert_ne!(a, b);
    let mut context = Context::new(InputState::idle());
    assert!(context.focus(a));
    assert!(!context.focus(b));
    assert_eq!(context.focused, Some(a));
    assert!(context.unfocus(a));
    assert!(context.focus(b));
    assert_eq!(context.focused, Some(b));
}

#[test]
fn repeated_claim_of_the_holder_is_refused_too() {
    let a = Id::make("a");
    let mut context = Context::new(InputState::idle());
    assert!(context.focus(a));
    assert!(!context.focus(a));
    assert_eq!(context.focused, Some(a));
}

#[test]
fn force_focus_bypasses_the_claim() {
    let a = Id::make("a");
    let b = Id::make("b");
    let mut context = Context::new(InputState::idle());
    assert!(context.focus(a));
    context.force_focus(b);
    assert_eq!(context.focused, Some(b));
    assert!(!context.is_focused(a));
}

#[test]
fn unfocus_by_a_stranger_changes_nothing() {
    let a = Id::make("a");
    let b = Id::make("b");
    let mut context = Context::new(InputState::idle());
    assert!(!context.unfocus(a));
    assert_eq!(context.focused, None);
    context.force_focus(a);
    assert!(!context.unfocus(b));
    assert_eq!(context.focused, Some(a));
}

#[test]
fn hover_has_no_claim_last_call_wins() {
    let a = Id::make("a");
    let b = Id::make("b");
    let mut context = Context::new(InputState::idle());
    context.hover(a);
    context.hover(b);
    assert_eq!(context.hovered, Some(b));
    context.hover(a);
    assert_eq!(context.hovered, Some(a));
}

#[test]
fn focus_and_hover_do_not_touch_each_other() {
    let a = Id::make("a");
    let b = Id::make("b");
    let mut context = Context::new(InputState::idle());
    context.focus(a);
    context.hover(b);
    assert_eq!(context.focused, Some(a));
    assert_eq!(context.hovered, Some(b));
    context.unhover(b);
    assert_eq!(context.focused, Some(a));
    context.unfocus(a);
    assert_eq!(context.hovered, None);
}

#[test]
fn two_frames_of_ok_and_cancel() {
    let id_ok = Id::make("ok-button");
    let id_cancel = Id::make("cancel-button");
    let mut first = Context::new(InputState::idle());
    assert!(first.focus(id_ok));
    assert!(!first.focus(id_cancel));
    assert_eq!(first.focused, Some(id_ok));

    let mut second = first.next_frame(InputState::idle());
    assert_eq!(second.focused, Some(id_ok));
    assert!(!second.unfocus(id_cancel));
    assert_eq!(second.focused, Some(id_ok));
    assert!(second.unfocus(id_ok));
    assert_eq!(second.focused, None);
}

#[test]
fn next_frame_carries_focus_and_hover_and_nothing_else() {
    let a = Id::make("a");
    let b = Id::make("b");
    let mut first = Context::new(InputState::idle());
    first.focus(a);
    first.hover(b);
    first.style.push(newport_imgui::TextStyle { line_height: 30 });
    first.push_layer(a, newport_imgui::Painter::new(newport_imgui::Rect::new(0, 0, 1, 1)));
    let input = InputState { mouse: None, primary_down: true, primary_was_down: false };
    let second = first.next_frame(input);
    assert_eq!(second.focused, Some(a));
    assert_eq!(second.hovered, Some(b));
    assert!(second.layers.is_empty());
    assert_eq!(second.style.depth(newport_imgui::StyleCategory::Text), 0);
    assert_eq!(second.input, input);
    assert_eq!(first.layers.len(), 1);
}
