use newport_imgui::{
    Builder, ColorStyle, Context, Direction, Id, InputState, Layout, LayoutStyle, Point, Rect,
    StyleCategory, TextStyle,
};

fn root_layout() -> Layout {
    Layout::new(Rect::new(0, 0, 200, 100), Direction::TopToBottom)
}

fn side_layout() -> Layout {
    Layout::new(Rect::new(10, 10, 60, 30), Direction::LeftToRight)
}

fn red() -> ColorStyle {
    ColorStyle {
        inactive_background: 0xff0000ff,
        hovered_background: 0xff2020ff,
        focused_background: 0xc00000ff,
        foreground: 0x000000ff,
    }
}

#[test]
fn new_builder_is_open_and_empty() {
    let mut context = Context::new(InputState::idle());
    let builder = Builder::new(Id::make("root"), root_layout(), &mut context);
    assert_eq!(builder.id, Id::make("root"));
    assert_eq!(builder.layout, root_layout());
    assert_eq!(builder.painter.region, Rect::new(0, 0, 200, 100));
    assert!(builder.painter.shapes.is_empty());
}

#[test]
fn builder_reads_the_frames_input() {
    let input = InputState {
        mouse: Some(Point { x: 3, y: 4 }),
        primary_down: true,
        primary_was_down: false,
    };
    let mut context = Context::new(input);
    let builder = Builder::new(Id::make("root"), root_layout(), &mut context);
    assert_eq!(*builder.input(), input);
}

#[test]
fn builder_delegates_focus_and_hover_to_the_context() {
    let a = Id::make("a");
    let b = Id::make("b");
    let mut context = Context::new(InputState::idle());
    {
        let mut builder = Builder::new(Id::make("root"), root_layout(), &mut context);
        assert!(!builder.is_focused(a));
        assert!(builder.focus(a));
        assert!(builder.is_focused(a));
        assert!(!builder.focus(b));
        assert!(!builder.unfocus(b));
        assert!(builder.is_focused(a));
        builder.force_focus(b);
        assert!(builder.is_focused(b));
        assert!(builder.unfocus(b));
        assert!(!builder.is_focused(b));
        builder.hover(a);
        assert!(builder.is_hovered(a));
        builder.hover(b);
        assert!(!builder.is_hovered(a));
        assert!(!builder.unhover(a));
        assert!(builder.unhover(b));
        assert!(builder.focus(a));
        builder.hover(b);
        assert_eq!(builder.id, Id::make("root"));
        assert_eq!(builder.layout, root_layout());
    }
    assert_eq!(context.focused, Some(a));
    assert_eq!(context.hovered, Some(b));
}

#[test]
fn style_gives_the_contexts_register() {
    let mut context = Context::new(InputState::idle());
    {
        let mut builder = Builder::new(Id::make("root"), root_layout(), &mut context);
        builder.style().push(TextStyle { line_height: 40 });
        assert_eq!(builder.style().get::<TextStyle>(), TextStyle { line_height: 40 });
    }
    assert_eq!(context.style.get::<TextStyle>(), TextStyle { line_height: 40 });
    assert_eq!(context.style.depth(StyleCategory::Text), 1);
}

#[test]
fn layout_scope_restores_the_layout() {
    let mut context = Context::new(InputState::idle());
    let mut builder = Builder::new(Id::make("root"), root_layout(), &mut context);
    builder.layout.allocate(10);
    let before = builder.layout;
    let mut seen = None;
    builder.layout(side_layout(), |scope: &mut Builder| {
        seen = Some(scope.layout);
        scope.layout.allocate(20);
        scope.layout = Layout::new(Rect::new(-5, -5, 5, 5), Direction::TopToBottom);
        scope.layout.allocate(3);
    });
    assert_eq!(seen, Some(side_layout()));
    assert_eq!(builder.layout, before);
    assert_eq!(builder.layout.cursor, 10);
}

#[test]
fn layout_scope_keeps_what_the_content_did() {
    let a = Id::make("a");
    let mut context = Context::new(InputState::idle());
    let mut builder = Builder::new(Id::make("root"), root_layout(), &mut context);
    builder.layout(side_layout(), |scope: &mut Builder| {
        scope.focus(a);
        scope.hover(a);
        scope.painter.rect(Rect::new(0, 0, 1, 1), 7);
        scope.style().push(LayoutStyle { padding: 1 });
    });
    assert!(builder.is_focused(a));
    assert!(builder.is_hovered(a));
    assert_eq!(builder.painter.shapes.len(), 1);
    assert_eq!(builder.style().depth(StyleCategory::Layout), 1);
    assert_eq!(builder.layout, root_layout());
}

#[test]
fn nested_layout_scopes_restore_in_turn() {
    let mut context = Context::new(InputState::idle());
    let mut builder = Builder::new(Id::make("root"), root_layout(), &mut context);
    let inner = Layout::new(Rect::new(1, 1, 2, 2), Direction::TopToBottom);
    builder.layout(side_layout(), |scope: &mut Builder| {
        scope.layout(inner, |deep: &mut Builder| {
            assert_eq!(deep.layout, inner);
            deep.layout.allocate(1);
        });
        assert_eq!(scope.layout, side_layout());
    });
    assert_eq!(builder.layout, root_layout());
}

#[test]
fn scoped_style_overrides_inside_and_restores_outside() {
    let mut context = Context::new(InputState::idle());
    let mut builder = Builder::new(Id::make("root"), root_layout(), &mut context);
    let before = builder.style().get::<ColorStyle>();
    let mut inside = None;
    builder.scoped_style(red(), |scope: &mut Builder| {
        inside = Some(scope.style().get::<ColorStyle>());
    });
    assert_eq!(inside, Some(red()));
    assert_eq!(builder.style().get::<ColorStyle>(), before);
    assert_eq!(builder.style().depth(StyleCategory::Color), 0);
}

#[test]
fn well_nested_scopes_are_balanced() {
    let mut context = Context::new(InputState::idle());
    let mut builder = Builder::new(Id::make("root"), root_layout(), &mut context);
    builder.style().push(TextStyle { line_height: 18 });
    let before = (
        builder.style().current(StyleCategory::Color),
        builder.style().current(StyleCategory::Text),
        builder.style().current(StyleCategory::Layout),
    );
    builder.scoped_style(red(), |outer: &mut Builder| {
        outer.scoped_style(TextStyle { line_height: 50 }, |middle: &mut Builder| {
            assert_eq!(middle.style().get::<TextStyle>(), TextStyle { line_height: 50 });
            middle.scoped_style(TextStyle { line_height: 60 }, |inner: &mut Builder| {
                assert_eq!(inner.style().get::<TextStyle>(), TextStyle { line_height: 60 });
                assert_eq!(inner.style().get::<ColorStyle>(), red());
                assert_eq!(inner.style().depth(StyleCategory::Text), 3);
            });
            assert_eq!(middle.style().get::<TextStyle>(), TextStyle { line_height: 50 });
        });
        outer.scoped_style(LayoutStyle { padding: 1 }, |second: &mut Builder| {
            assert_eq!(second.style().get::<LayoutStyle>(), LayoutStyle { padding: 1 });
            assert_eq!(second.style().get::<TextStyle>(), TextStyle { line_height: 18 });
        });
        assert_eq!(outer.style().get::<ColorStyle>(), red());
    });
    let after = (
        builder.style().current(StyleCategory::Color),
        builder.style().current(StyleCategory::Text),
        builder.style().current(StyleCategory::Layout),
    );
    assert_eq!(before, after);
    assert_eq!(builder.style().depth(StyleCategory::Color), 0);
    assert_eq!(builder.style().depth(StyleCategory::Text), 1);
    assert_eq!(builder.style().depth(StyleCategory::Layout), 0);
}

#[test]
fn scoped_style_pops_its_own_category_only() {
    let mut context = Context::new(InputState::idle());
    let mut builder = Builder::new(Id::make("root"), root_layout(), &mut context);
    builder.scoped_style(red(), |scope: &mut Builder| {
        scope.style().push(LayoutStyle { padding: 11 });
    });
    assert_eq!(builder.style().depth(StyleCategory::Color), 0);
    assert_eq!(builder.style().get::<LayoutStyle>(), LayoutStyle { padding: 11 });
}

#[test]
fn scoped_style_keeps_what_the_contents_did() {
    let a = Id::make("a");
    let mut context = Context::new(InputState::idle());
    {
        let mut builder = Builder::new(Id::make("root"), root_layout(), &mut context);
        builder.scoped_style(red(), |scope: &mut Builder| {
            scope.focus(a);
            scope.layout.allocate(5);
        });
        assert_eq!(builder.layout.cursor, 5);
        builder.finish();
    }
    assert_eq!(context.focused, Some(a));
    assert_eq!(context.layers.len(), 1);
}

#[test]
fn frame_with_closed_scopes_ends_with_an_empty_register() {
    let mut context = Context::new(InputState::idle());
    {
        let mut builder = Builder::new(Id::make("root"), root_layout(), &mut context);
        builder.scoped_style(red(), |outer: &mut Builder| {
            outer.scoped_style(TextStyle { line_height: 9 }, |inner: &mut Builder| {
                inner.label("deep");
            });
        });
        builder.finish();
    }
    assert!(context.style.is_empty());
}
