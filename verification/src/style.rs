//! The style register: for each style category a stack of values of that
//! category. A scope pushes a value to override the category's style and
//! pops it again when it closes; the style in force is the top of the
//! category's own stack, whatever the other stacks hold.

use vstd::prelude::*;

verus! {

/// The axes of appearance that can be overridden one by one.
#[derive(Copy, Clone, Debug, PartialEq, Eq, Structural)]
pub enum StyleCategory {
    Color,
    Text,
    Layout,
}

/// The colours of a widget, each packed as `0xRRGGBBAA`.
#[derive(Copy, Clone, Debug, PartialEq, Eq, Structural)]
pub struct ColorStyle {
    pub inactive_background: u32,
    pub hovered_background: u32,
    pub focused_background: u32,
    pub foreground: u32,
}

/// How text is set.
#[derive(Copy, Clone, Debug, PartialEq, Eq, Structural)]
pub struct TextStyle {
    /// The height of one line of text, in pixels.
    pub line_height: u32,
}

/// How much room widgets take beyond their content.
#[derive(Copy, Clone, Debug, PartialEq, Eq, Structural)]
pub struct LayoutStyle {
    /// The room left free on each side of a widget's content, in pixels.
    pub padding: u32,
}

/// A style value together with its category.
#[derive(Copy, Clone, Debug, PartialEq, Eq, Structural)]
pub enum StyleValue {
    Color(ColorStyle),
    Text(TextStyle),
    Layout(LayoutStyle),
}

impl StyleValue {
    /// The category that the value belongs to.
    pub open spec fn category(self) -> StyleCategory {
        match self {
            StyleValue::Color(_) => StyleCategory::Color,
            StyleValue::Text(_) => StyleCategory::Text,
            StyleValue::Layout(_) => StyleCategory::Layout,
        }
    }
}

/// The style in force in a category that nothing overrides: dark grey
/// widgets that lighten under the pointer and darken when focused, white
/// text, lines 16 pixels high, 4 pixels of padding.
pub open spec fn default_style(category: StyleCategory) -> StyleValue {
    match category {
        StyleCategory::Color => StyleValue::Color(
            ColorStyle {
                inactive_background: 0x2b2b2bff,
                hovered_background: 0x3c3c3cff,
                focused_background: 0x1e1e1eff,
                foreground: 0xffffffff,
            },
        ),
        StyleCategory::Text => StyleValue::Text(TextStyle { line_height: 16 }),
        StyleCategory::Layout => StyleValue::Layout(LayoutStyle { padding: 4 }),
    }
}

/// The register with nothing pushed in any category.
pub open spec fn no_styles() -> Map<StyleCategory, Seq<StyleValue>> {
    Map::new(|category: StyleCategory| true, |category: StyleCategory| Seq::empty())
}

/// The register after `value` has been pushed onto its category's stack.
pub open spec fn pushed(
    stacks: Map<StyleCategory, Seq<StyleValue>>,
    value: StyleValue,
) -> Map<StyleCategory, Seq<StyleValue>> {
    stacks.insert(value.category(), stacks[value.category()].push(value))
}

/// The register after the top of `category`'s stack has been removed.
pub open spec fn popped(
    stacks: Map<StyleCategory, Seq<StyleValue>>,
    category: StyleCategory,
) -> Map<StyleCategory, Seq<StyleValue>> {
    stacks.insert(category, stacks[category].drop_last())
}

/// The style in force in `category`: the top of its stack, or the default
/// where the stack is empty.
pub open spec fn top(
    stacks: Map<StyleCategory, Seq<StyleValue>>,
    category: StyleCategory,
) -> StyleValue {
    if stacks[category].len() == 0 {
        default_style(category)
    } else {
        stacks[category].last()
    }
}

/// The room that one line of text takes along the layout's axis under the
/// styles in force: the line's height and the padding before and after it,
/// held at the largest `u32` where the sum is beyond it.
pub open spec fn line_extent(stacks: Map<StyleCategory, Seq<StyleValue>>) -> u32 {
    let line = TextStyle::of_value(top(stacks, StyleCategory::Text)).line_height;
    let padding = LayoutStyle::of_value(top(stacks, StyleCategory::Layout)).padding;
    if line + 2 * padding <= u32::MAX {
        (line + 2 * padding) as u32
    } else {
        u32::MAX
    }
}

/// Every category has a stack, and each stack holds values of its own
/// category only.
pub open spec fn well_typed(stacks: Map<StyleCategory, Seq<StyleValue>>) -> bool {
    &&& forall|category: StyleCategory| stacks.dom().contains(category)
    &&& forall|category: StyleCategory, depth: int|
        0 <= depth < stacks[category].len() ==> (#[trigger] stacks[category][depth]).category()
            == category
}

/// A type of style values that fills one category of the register.
pub trait Style: Sized + Copy {
    /// The category whose stack holds values of this type.
    spec fn category() -> StyleCategory;

    /// The value, tagged with its category.
    spec fn as_value(self) -> StyleValue;

    /// The value of this type inside a tagged value of its category, and
    /// the category's default for a value of another category.
    spec fn of_value(value: StyleValue) -> Self;

    /// Tagging a value puts it in this type's category and loses nothing.
    proof fn lemma_tagged(self)
        ensures
            self.as_value().category() == Self::category(),
            Self::of_value(self.as_value()) == self,
    ;

    /// Names the category whose stack holds values of this type.
    fn tag() -> (category: StyleCategory)
        ensures
            category == Self::category(),
    ;

    /// Tags the value with its category.
    fn into_value(self) -> (value: StyleValue)
        ensures
            value == self.as_value(),
            value.category() == Self::category(),
            Self::of_value(value) == self,
    ;

    /// Takes the value of this type out of a tagged value. A value of
    /// another category gives this category's default.
    fn from_value(value: StyleValue) -> (style: Self)
        ensures
            style == Self::of_value(value),
            value.category() == Self::category() ==> style.as_value() == value,
    ;
}

impl Style for ColorStyle {
    open spec fn category() -> StyleCategory {
        StyleCategory::Color
    }

    open spec fn as_value(self) -> StyleValue {
        StyleValue::Color(self)
    }

    open spec fn of_value(value: StyleValue) -> ColorStyle {
        match value {
            StyleValue::Color(style) => style,
            _ => default_style(StyleCategory::Color)->Color_0,
        }
    }

    proof fn lemma_tagged(self) {
    }

    fn tag() -> (category: StyleCategory) {
        StyleCategory::Color
    }

    fn into_value(self) -> (value: StyleValue) {
        StyleValue::Color(self)
    }

    fn from_value(value: StyleValue) -> (style: ColorStyle) {
        match value {
            StyleValue::Color(style) => style,
            _ => default_colors(),
        }
    }
}

impl Style for TextStyle {
    open spec fn category() -> StyleCategory {
        StyleCategory::Text
    }

    open spec fn as_value(self) -> StyleValue {
        StyleValue::Text(self)
    }

    open spec fn of_value(value: StyleValue) -> TextStyle {
        match value {
            StyleValue::Text(style) => style,
            _ => default_style(StyleCategory::Text)->Text_0,
        }
    }

    proof fn lemma_tagged(self) {
    }

    fn tag() -> (category: StyleCategory) {
        StyleCategory::Text
    }

    fn into_value(self) -> (value: StyleValue) {
        StyleValue::Text(self)
    }

    fn from_value(value: StyleValue) -> (style: TextStyle) {
        match value {
            StyleValue::Text(style) => style,
            _ => default_text(),
        }
    }
}

impl Style for LayoutStyle {
    open spec fn category() -> StyleCategory {
        StyleCategory::Layout
    }

    open spec fn as_value(self) -> StyleValue {
        StyleValue::Layout(self)
    }

    open spec fn of_value(value: StyleValue) -> LayoutStyle {
        match value {
            StyleValue::Layout(style) => style,
            _ => default_style(StyleCategory::Layout)->Layout_0,
        }
    }

    proof fn lemma_tagged(self) {
    }

    fn tag() -> (category: StyleCategory) {
        StyleCategory::Layout
    }

    fn into_value(self) -> (value: StyleValue) {
        StyleValue::Layout(self)
    }

    fn from_value(value: StyleValue) -> (style: LayoutStyle) {
        match value {
            StyleValue::Layout(style) => style,
            _ => default_spacing(),
        }
    }
}

fn default_colors() -> (style: ColorStyle)
    ensures
        StyleValue::Color(style) == default_style(StyleCategory::Color),
{
    ColorStyle {
        inactive_background: 0x2b2b2bff,
        hovered_background: 0x3c3c3cff,
        focused_background: 0x1e1e1eff,
        foreground: 0xffffffff,
    }
}

fn default_text() -> (style: TextStyle)
    ensures
        StyleValue::Text(style) == default_style(StyleCategory::Text),
{
    TextStyle { line_height: 16 }
}

fn default_spacing() -> (style: LayoutStyle)
    ensures
        StyleValue::Layout(style) == default_style(StyleCategory::Layout),
{
    LayoutStyle { padding: 4 }
}

/// The stack of colour styles, each tagged with its category.
spec fn tagged_colors(stack: Seq<ColorStyle>) -> Seq<StyleValue> {
    Seq::new(stack.len(), |depth: int| StyleValue::Color(stack[depth]))
}

/// The stack of text styles, each tagged with its category.
spec fn tagged_texts(stack: Seq<TextStyle>) -> Seq<StyleValue> {
    Seq::new(stack.len(), |depth: int| StyleValue::Text(stack[depth]))
}

/// The stack of layout styles, each tagged with its category.
spec fn tagged_layouts(stack: Seq<LayoutStyle>) -> Seq<StyleValue> {
    Seq::new(stack.len(), |depth: int| StyleValue::Layout(stack[depth]))
}

/// The style register.
pub struct StyleMap {
    colors: Vec<ColorStyle>,
    texts: Vec<TextStyle>,
    layouts: Vec<LayoutStyle>,
}

impl View for StyleMap {
    type V = Map<StyleCategory, Seq<StyleValue>>;

    /// The register as a map from each category to its stack, bottom first.
    closed spec fn view(&self) -> Map<StyleCategory, Seq<StyleValue>> {
        Map::new(
            |category: StyleCategory| true,
            |category: StyleCategory|
                match category {
                    StyleCategory::Color => tagged_colors(self.colors@),
                    StyleCategory::Text => tagged_texts(self.texts@),
                    StyleCategory::Layout => tagged_layouts(self.layouts@),
                },
        )
    }
}

impl StyleMap {
    /// Whatever was pushed, every category has its stack and every stack
    /// holds values of its own category.
    pub proof fn lemma_well_typed(&self)
        ensures
            well_typed(self@),
    {
    }

    /// A register with nothing pushed.
    pub fn new() -> (register: StyleMap)
        ensures
            register@ == no_styles(),
    {
        let register = StyleMap { colors: Vec::new(), texts: Vec::new(), layouts: Vec::new() };
        assert(register@ =~= no_styles()) by {
            assert forall|category: StyleCategory| #[trigger]
                register@[category] =~= Seq::<StyleValue>::empty() by {}
        }
        register
    }

    /// Pushes `value` onto the stack of its category. The other stacks stay
    /// as they are.
    pub fn push<T: Style>(&mut self, value: T)
        ensures
            final(self)@ == pushed(old(self)@, value.as_value()),
    {
        let tagged = value.into_value();
        match tagged {
            StyleValue::Color(style) => {
                self.colors.push(style);
                assert(tagged_colors(self.colors@) =~= tagged_colors(old(self).colors@).push(
                    tagged,
                ));
            },
            StyleValue::Text(style) => {
                self.texts.push(style);
                assert(tagged_texts(self.texts@) =~= tagged_texts(old(self).texts@).push(tagged));
            },
            StyleValue::Layout(style) => {
                self.layouts.push(style);
                assert(tagged_layouts(self.layouts@) =~= tagged_layouts(old(self).layouts@).push(
                    tagged,
                ));
            },
        }
        assert(self@ =~= pushed(old(self)@, tagged));
    }

    /// Removes the top of the stack of `T`'s category. The other stacks stay
    /// as they are. The stack must hold a value.
    pub fn pop<T: Style>(&mut self)
        requires
            old(self)@[T::category()].len() > 0,
        ensures
            final(self)@ == popped(old(self)@, T::category()),
    {
        let category = T::tag();
        match category {
            StyleCategory::Color => {
                self.colors.pop();
                assert(tagged_colors(self.colors@) =~= tagged_colors(
                    old(self).colors@,
                ).drop_last());
            },
            StyleCategory::Text => {
                self.texts.pop();
                assert(tagged_texts(self.texts@) =~= tagged_texts(old(self).texts@).drop_last());
            },
            StyleCategory::Layout => {
                self.layouts.pop();
                assert(tagged_layouts(self.layouts@) =~= tagged_layouts(
                    old(self).layouts@,
                ).drop_last());
            },
        }
        assert(self@ =~= popped(old(self)@, category));
    }

    /// The style in force in `category`, tagged: the top of the category's
    /// stack, or the default where nothing is pushed.
    pub fn current(&self, category: StyleCategory) -> (value: StyleValue)
        ensures
            value == top(self@, category),
            value.category() == category,
    {
        match category {
            StyleCategory::Color => {
                let depth = self.colors.len();
                if depth == 0 {
                    StyleValue::Color(default_colors())
                } else {
                    StyleValue::Color(self.colors[depth - 1])
                }
            },
            StyleCategory::Text => {
                let depth = self.texts.len();
                if depth == 0 {
                    StyleValue::Text(default_text())
                } else {
                    StyleValue::Text(self.texts[depth - 1])
                }
            },
            StyleCategory::Layout => {
                let depth = self.layouts.len();
                if depth == 0 {
                    StyleValue::Layout(default_spacing())
                } else {
                    StyleValue::Layout(self.layouts[depth - 1])
                }
            },
        }
    }

    /// The style in force in `T`'s category.
    pub fn get<T: Style>(&self) -> (style: T)
        ensures
            style == T::of_value(top(self@, T::category())),
            style.as_value() == top(self@, T::category()),
    {
        T::from_value(self.current(T::tag()))
    }

    /// The room that one line of text takes under the styles in force.
    pub fn line_extent(&self) -> (extent: u32)
        ensures
            extent == line_extent(self@),
    {
        let text: TextStyle = self.get();
        let spacing: LayoutStyle = self.get();
        let wanted: u64 = text.line_height as u64 + 2 * (spacing.padding as u64);
        if wanted <= u32::MAX as u64 {
            wanted as u32
        } else {
            u32::MAX
        }
    }

    /// Tests whether nothing is pushed in any category, as it is at the
    /// start of a frame and again at its end if every scope was closed.
    pub fn is_empty(&self) -> (empty: bool)
        ensures
            empty == (self@ == no_styles()),
    {
        let empty = self.colors.len() == 0 && self.texts.len() == 0 && self.layouts.len() == 0;
        proof {
            if empty {
                assert forall|category: StyleCategory| #[trigger]
                    self@[category] =~= Seq::<StyleValue>::empty() by {}
                assert(self@ =~= no_styles());
            } else {
                if self.colors.len() != 0 {
                    assert(self@[StyleCategory::Color].len() != 0);
                } else if self.texts.len() != 0 {
                    assert(self@[StyleCategory::Text].len() != 0);
                } else {
                    assert(self@[StyleCategory::Layout].len() != 0);
                }
            }
        }
        empty
    }

    /// How many values are pushed in `category`.
    pub fn depth(&self, category: StyleCategory) -> (depth: usize)
        ensures
            depth == self@[category].len(),
    {
        match category {
            StyleCategory::Color => self.colors.len(),
            StyleCategory::Text => self.texts.len(),
            StyleCategory::Layout => self.layouts.len(),
        }
    }
}

/// A push and the pop that pairs with it leave the register as it was.
pub proof fn law_push_pop_restores(stacks: Map<StyleCategory, Seq<StyleValue>>, value: StyleValue)
    requires
        stacks.dom().contains(value.category()),
    ensures
        popped(pushed(stacks, value), value.category()) == stacks,
        top(pushed(stacks, value), value.category()) == value,
{
    let category = value.category();
    assert(stacks[category].push(value).drop_last() =~= stacks[category]);
    assert(popped(pushed(stacks, value), category) =~= stacks);
}

/// Categories are independent: a push or a pop in one category changes
/// neither the stack nor the style in force of any other.
pub proof fn law_categories_independent(
    stacks: Map<StyleCategory, Seq<StyleValue>>,
    value: StyleValue,
    other: StyleCategory,
)
    requires
        other != value.category(),
    ensures
        pushed(stacks, value)[other] == stacks[other],
        popped(stacks, value.category())[other] == stacks[other],
        top(pushed(stacks, value), other) == top(stacks, other),
        top(popped(stacks, value.category()), other) == top(stacks, other),
{
}

/// A scope that overrides one style while it is open, with the scopes that
/// are opened and closed inside it, in their order.
pub struct StyleScope {
    pub value: StyleValue,
    pub inner: Seq<StyleScope>,
}

/// The register after a scope has been opened, its inner scopes have run,
/// and it has been closed.
pub open spec fn after_scope(
    stacks: Map<StyleCategory, Seq<StyleValue>>,
    scope: StyleScope,
) -> Map<StyleCategory, Seq<StyleValue>>
    decreases scope,
{
    popped(after_scopes(pushed(stacks, scope.value), scope.inner), scope.value.category())
}

/// The register after a sequence of scopes has run, one after the other.
pub open spec fn after_scopes(
    stacks: Map<StyleCategory, Seq<StyleValue>>,
    scopes: Seq<StyleScope>,
) -> Map<StyleCategory, Seq<StyleValue>>
    decreases scopes,
{
    if scopes.len() == 0 {
        stacks
    } else {
        after_scope(after_scopes(stacks, scopes.drop_last()), scopes.last())
    }
}

/// Scopes balance: once a scope has closed, however many scopes were nested
/// in it and however deep, the register is what it was before the scope
/// opened, and so is the style in force in every category.
pub proof fn law_scope_balances(stacks: Map<StyleCategory, Seq<StyleValue>>, scope: StyleScope)
    requires
        forall|category: StyleCategory| stacks.dom().contains(category),
    ensures
        after_scope(stacks, scope) == stacks,
        forall|category: StyleCategory|
            top(after_scope(stacks, scope), category) == top(stacks, category),
    decreases scope,
{
    law_scopes_balance(pushed(stacks, scope.value), scope.inner);
    law_push_pop_restores(stacks, scope.value);
}

/// Any well-nested sequence of scopes leaves the register as it found it.
pub proof fn law_scopes_balance(
    stacks: Map<StyleCategory, Seq<StyleValue>>,
    scopes: Seq<StyleScope>,
)
    requires
        forall|category: StyleCategory| stacks.dom().contains(category),
    ensures
        after_scopes(stacks, scopes) == stacks,
    decreases scopes,
{
    if scopes.len() > 0 {
        law_scopes_balance(stacks, scopes.drop_last());
        law_scope_balances(stacks, scopes.last());
    }
}

} // verus!
