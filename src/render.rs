use vstd::prelude::*;

use crate::view::{ItemView, TextStyle, TextView};

verus! {

/// Terminal code that ends every styled run.
pub open spec fn reset_code() -> Seq<char> {
    "\x1b[0m"@
}

/// Colour code of a style.
pub open spec fn color_code(style: TextStyle) -> Seq<char> {
    match style {
        TextStyle::Normal => ""@,
        TextStyle::Magic => "\x1b[38;5;39m"@,
        TextStyle::Rare => "\x1b[38;5;220m"@,
        TextStyle::Unique => "\x1b[38;5;208m"@,
        TextStyle::UnfulfilledRequirement => "\x1b[31m"@,
        TextStyle::ColorWhenModified => "\x1b[38m"@,
    }
}

/// Background highlight code of a style.
pub open spec fn highlight_code(style: TextStyle) -> Seq<char> {
    match style {
        TextStyle::Magic => "\x1b[1m\x1b[48;5;60m"@,
        TextStyle::Rare => "\x1b[1m\x1b[48;5;59m"@,
        TextStyle::Unique => "\x1b[1m\x1b[48;5;95m"@,
        _ => ""@,
    }
}

pub open spec fn bold_code() -> Seq<char> {
    "\x1b[1m"@
}

pub open spec fn italic_code() -> Seq<char> {
    "\x1b[3m"@
}

pub open spec fn underline_code() -> Seq<char> {
    "\x1b[4m"@
}

/// Colour code that replaces the start marker of a modified value.
pub open spec fn modified_code() -> Seq<char> {
    "\x1b[38;5;39m"@
}

/// `pat` occurs in `s` as a run of consecutive characters.
pub open spec fn occurs_in(pat: Seq<char>, s: Seq<char>) -> bool {
    exists|i: int| 0 <= i <= s.len() - pat.len() && #[trigger] s.subrange(i, i + pat.len()) == pat
}

/// What `str::replace` returns for these characters.
pub uninterp spec fn replaced(s: Seq<char>, from: Seq<char>, to: Seq<char>) -> Seq<char>;

/// Relies on std's `str::contains` with a `&str` pattern: true exactly when the
/// pattern matches a run of the string.
#[verifier::external_body]
fn text_contains(s: &str, pat: &str) -> (r: bool)
    ensures
        r == occurs_in(pat@, s@),
{
    s.contains(pat)
}

/// Relies on std's `str::replace`: every match of `from` replaced by `to`.
#[verifier::external_body]
fn text_replace(s: &str, from: &str, to: &str) -> (r: String)
    ensures
        r@ == replaced(s@, from@, to@),
{
    s.replace(from, to)
}

/// Value of a text whose modification markers have been turned into colour
/// codes; unchanged unless both markers occur.
pub open spec fn with_marked_colors(value: Seq<char>) -> Seq<char> {
    if occurs_in("%mod_start"@, value) && occurs_in("%mod_end"@, value) {
        replaced(replaced(value, "%mod_start"@, modified_code()), "%mod_end"@, reset_code())
    } else {
        value
    }
}

/// Turns the modification markers of `value` into colour codes, when both occur.
pub fn mark_modified(value: &String) -> (r: String)
    ensures
        r@ == with_marked_colors(value@),
{
    proof {
        reveal_strlit("%mod_start");
        reveal_strlit("%mod_end");
        reveal_strlit("\x1b[38;5;39m");
        reveal_strlit("\x1b[0m");
    }
    if text_contains(value.as_str(), "%mod_start") && text_contains(value.as_str(), "%mod_end") {
        let started = text_replace(value.as_str(), "%mod_start", "\x1b[38;5;39m");
        text_replace(started.as_str(), "%mod_end", "\x1b[0m")
    } else {
        value.clone()
    }
}

/// Turns a text into what is written to the terminal.
pub trait TextRenderer {
    spec fn rendered(&self, value: Seq<char>, style: TextStyle) -> Seq<char>;

    fn render(&self, text: &TextView) -> (r: String)
        ensures
            r@ == self.rendered(text.value@, text.style),
    ;
}

/// Writes a text as it is.
#[derive(Clone, Copy, Debug)]
pub struct ConsoleTextRenderer {}

impl TextRenderer for ConsoleTextRenderer {
    open spec fn rendered(&self, value: Seq<char>, style: TextStyle) -> Seq<char> {
        value
    }

    fn render(&self, text: &TextView) -> (r: String) {
        text.value.clone()
    }
}

fn color_str(style: TextStyle) -> (r: &'static str)
    ensures
        r@ == color_code(style),
{
    match style {
        TextStyle::Normal => "",
        TextStyle::Magic => "\x1b[38;5;39m",
        TextStyle::Rare => "\x1b[38;5;220m",
        TextStyle::Unique => "\x1b[38;5;208m",
        TextStyle::UnfulfilledRequirement => "\x1b[31m",
        TextStyle::ColorWhenModified => "\x1b[38m",
    }
}

fn highlight_str(style: TextStyle) -> (r: &'static str)
    ensures
        r@ == highlight_code(style),
{
    match style {
        TextStyle::Magic => "\x1b[1m\x1b[48;5;60m",
        TextStyle::Rare => "\x1b[1m\x1b[48;5;59m",
        TextStyle::Unique => "\x1b[1m\x1b[48;5;95m",
        _ => "",
    }
}

/// `prefix`, then `inner`, then the reset code.
fn wrapped(prefix: &str, inner: String) -> (r: String)
    ensures
        r@ == prefix@ + inner@ + reset_code(),
{
    proof {
        reveal_strlit("\x1b[0m");
    }
    let mut out = String::from_str(prefix);
    out.append(inner.as_str());
    out.append("\x1b[0m");
    out
}

/// Colours the inner rendering by the text's style.
#[derive(Clone, Copy, Debug)]
pub struct ColorDecorator<T: TextRenderer> {
    pub decoratee: T,
}

impl<T: TextRenderer> TextRenderer for ColorDecorator<T> {
    open spec fn rendered(&self, value: Seq<char>, style: TextStyle) -> Seq<char> {
        color_code(style) + self.decoratee.rendered(value, style) + reset_code()
    }

    fn render(&self, text: &TextView) -> (r: String) {
        wrapped(color_str(text.style), self.decoratee.render(text))
    }
}

/// Sets the inner rendering in bold.
#[derive(Clone, Copy, Debug)]
pub struct BoldDecorator<T: TextRenderer> {
    pub decoratee: T,
}

impl<T: TextRenderer> TextRenderer for BoldDecorator<T> {
    open spec fn rendered(&self, value: Seq<char>, style: TextStyle) -> Seq<char> {
        bold_code() + self.decoratee.rendered(value, style) + reset_code()
    }

    fn render(&self, text: &TextView) -> (r: String) {
        proof {
            reveal_strlit("\x1b[1m");
        }
        wrapped("\x1b[1m", self.decoratee.render(text))
    }
}

/// Sets the inner rendering in italics.
#[derive(Clone, Copy, Debug)]
pub struct ItalicDecorator<T: TextRenderer> {
    pub decoratee: T,
}

impl<T: TextRenderer> TextRenderer for ItalicDecorator<T> {
    open spec fn rendered(&self, value: Seq<char>, style: TextStyle) -> Seq<char> {
        italic_code() + self.decoratee.rendered(value, style) + reset_code()
    }

    fn render(&self, text: &TextView) -> (r: String) {
        proof {
            reveal_strlit("\x1b[3m");
        }
        wrapped("\x1b[3m", self.decoratee.render(text))
    }
}

/// Underlines the inner rendering.
#[derive(Clone, Copy, Debug)]
pub struct UnderlineDecorator<T: TextRenderer> {
    pub decoratee: T,
}

impl<T: TextRenderer> TextRenderer for UnderlineDecorator<T> {
    open spec fn rendered(&self, value: Seq<char>, style: TextStyle) -> Seq<char> {
        underline_code() + self.decoratee.rendered(value, style) + reset_code()
    }

    fn render(&self, text: &TextView) -> (r: String) {
        proof {
            reveal_strlit("\x1b[4m");
        }
        wrapped("\x1b[4m", self.decoratee.render(text))
    }
}

/// Highlights the background of the inner rendering by the text's style.
#[derive(Clone, Copy, Debug)]
pub struct HighlightDecorator<T: TextRenderer> {
    pub decoratee: T,
}

impl<T: TextRenderer> TextRenderer for HighlightDecorator<T> {
    open spec fn rendered(&self, value: Seq<char>, style: TextStyle) -> Seq<char> {
        highlight_code(style) + self.decoratee.rendered(value, style) + reset_code()
    }

    fn render(&self, text: &TextView) -> (r: String) {
        wrapped(highlight_str(text.style), self.decoratee.render(text))
    }
}

/// Ends the inner rendering with a line break.
#[derive(Clone, Copy, Debug)]
pub struct NewLineDecorator<T: TextRenderer> {
    pub decoratee: T,
}

impl<T: TextRenderer> TextRenderer for NewLineDecorator<T> {
    open spec fn rendered(&self, value: Seq<char>, style: TextStyle) -> Seq<char> {
        self.decoratee.rendered(value, style) + "\n"@
    }

    fn render(&self, text: &TextView) -> (r: String) {
        proof {
            reveal_strlit("\n");
        }
        let mut out = self.decoratee.render(text);
        out.append("\n");
        out
    }
}

/// Colours the modified values of a text before the inner rendering.
#[derive(Clone, Copy, Debug)]
pub struct HighlightModificationDecorator<T: TextRenderer> {
    pub decoratee: T,
}

impl<T: TextRenderer> TextRenderer for HighlightModificationDecorator<T> {
    open spec fn rendered(&self, value: Seq<char>, style: TextStyle) -> Seq<char> {
        self.decoratee.rendered(with_marked_colors(value), style)
    }

    fn render(&self, text: &TextView) -> (r: String) {
        let marked = TextView { value: mark_modified(&text.value), style: text.style };
        self.decoratee.render(&marked)
    }
}

/// One layer of a built renderer.
#[derive(Clone, Copy, Debug, PartialEq, Eq, Structural)]
pub enum Decoration {
    Color,
    Bold,
    Italic,
    Underline,
    Highlight,
    HighlightModifications,
    NewLine,
}

/// Rendering through `layers`, the first one innermost.
pub open spec fn layered(layers: Seq<Decoration>, value: Seq<char>, style: TextStyle) -> Seq<char>
    decreases layers.len(),
{
    if layers.len() == 0 {
        value
    } else {
        let inner = layers.drop_last();
        match layers.last() {
            Decoration::Color => color_code(style) + layered(inner, value, style) + reset_code(),
            Decoration::Bold => bold_code() + layered(inner, value, style) + reset_code(),
            Decoration::Italic => italic_code() + layered(inner, value, style) + reset_code(),
            Decoration::Underline => underline_code() + layered(inner, value, style) + reset_code(),
            Decoration::Highlight => highlight_code(style) + layered(inner, value, style)
                + reset_code(),
            Decoration::HighlightModifications => layered(inner, with_marked_colors(value), style),
            Decoration::NewLine => layered(inner, value, style) + "\n"@,
        }
    }
}

/// A console renderer wrapped in decorations, the first one innermost.
#[derive(Clone, Debug)]
pub struct LayeredRenderer {
    pub layers: Vec<Decoration>,
}

fn render_layers(layers: &Vec<Decoration>, n: usize, value: &String, style: TextStyle) -> (r: String)
    requires
        n <= layers.len(),
    ensures
        r@ == layered(layers@.subrange(0, n as int), value@, style),
    decreases n,
{
    let ghost inner = layers@.subrange(0, n - 1);
    if n == 0 {
        return value.clone();
    }
    assert(layers@.subrange(0, n as int).drop_last() =~= inner);
    proof {
        reveal_strlit("\x1b[1m");
        reveal_strlit("\x1b[3m");
        reveal_strlit("\x1b[4m");
        reveal_strlit("\n");
    }
    match layers[n - 1] {
        Decoration::Color => wrapped(color_str(style), render_layers(layers, n - 1, value, style)),
        Decoration::Bold => wrapped("\x1b[1m", render_layers(layers, n - 1, value, style)),
        Decoration::Italic => wrapped("\x1b[3m", render_layers(layers, n - 1, value, style)),
        Decoration::Underline => wrapped("\x1b[4m", render_layers(layers, n - 1, value, style)),
        Decoration::Highlight => wrapped(
            highlight_str(style),
            render_layers(layers, n - 1, value, style),
        ),
        Decoration::HighlightModifications => {
            let marked = mark_modified(value);
            render_layers(layers, n - 1, &marked, style)
        },
        Decoration::NewLine => {
            let mut out = render_layers(layers, n - 1, value, style);
            out.append("\n");
            out
        },
    }
}

impl TextRenderer for LayeredRenderer {
    open spec fn rendered(&self, value: Seq<char>, style: TextStyle) -> Seq<char> {
        layered(self.layers@, value, style)
    }

    fn render(&self, text: &TextView) -> (r: String) {
        let r = render_layers(&self.layers, self.layers.len(), &text.value, text.style);
        assert(self.layers@.subrange(0, self.layers.len() as int) =~= self.layers@);
        r
    }
}

/// Stacks decorations round a console renderer; `build` adds a final line break.
#[derive(Clone, Debug)]
pub struct TextRendererBuilder {
    layers: Vec<Decoration>,
}

impl TextRendererBuilder {
    pub closed spec fn spec_layers(&self) -> Seq<Decoration> {
        self.layers@
    }

    pub fn new() -> (r: Self)
        ensures
            r.spec_layers() == Seq::<Decoration>::empty(),
    {
        TextRendererBuilder { layers: Vec::new() }
    }

    fn wrap(&mut self, layer: Decoration)
        ensures
            final(self).spec_layers() == old(self).spec_layers().push(layer),
    {
        self.layers.push(layer);
    }

    pub fn with_color(self) -> (r: Self)
        ensures
            r.spec_layers() == self.spec_layers().push(Decoration::Color),
    {
        let mut s = self;
        s.wrap(Decoration::Color);
        s
    }

    pub fn with_bold(self) -> (r: Self)
        ensures
            r.spec_layers() == self.spec_layers().push(Decoration::Bold),
    {
        let mut s = self;
        s.wrap(Decoration::Bold);
        s
    }

    pub fn with_italic(self) -> (r: Self)
        ensures
            r.spec_layers() == self.spec_layers().push(Decoration::Italic),
    {
        let mut s = self;
        s.wrap(Decoration::Italic);
        s
    }

    pub fn with_underline(self) -> (r: Self)
        ensures
            r.spec_layers() == self.spec_layers().push(Decoration::Underline),
    {
        let mut s = self;
        s.wrap(Decoration::Underline);
        s
    }

    pub fn with_highlight(self) -> (r: Self)
        ensures
            r.spec_layers() == self.spec_layers().push(Decoration::Highlight),
    {
        let mut s = self;
        s.wrap(Decoration::Highlight);
        s
    }

    pub fn with_highlight_modifications(self) -> (r: Self)
        ensures
            r.spec_layers() == self.spec_layers().push(Decoration::HighlightModifications),
    {
        let mut s = self;
        s.wrap(Decoration::HighlightModifications);
        s
    }

    pub fn build(self) -> (r: LayeredRenderer)
        ensures
            r.layers@ == self.spec_layers().push(Decoration::NewLine),
    {
        let mut s = self;
        s.wrap(Decoration::NewLine);
        LayeredRenderer { layers: s.layers }
    }
}

/// The renderers used to write an item to the console.
#[derive(Clone, Debug)]
pub struct ConsoleUI {
    pub item_title_text_renderer: LayeredRenderer,
    pub item_class_type_text_renderer: LayeredRenderer,
    pub item_requirement_text_renderer: LayeredRenderer,
    pub item_normal_text_renderer: LayeredRenderer,
    pub item_modifiers_text_render: LayeredRenderer,
    pub item_modified_values_text_render: LayeredRenderer,
}

impl Default for ConsoleUI {
    fn default() -> (r: Self)
        ensures
            r.item_title_text_renderer.layers@ == seq![
                Decoration::Color,
                Decoration::Bold,
                Decoration::Italic,
                Decoration::Highlight,
                Decoration::NewLine,
            ],
            r.item_class_type_text_renderer.layers@ == seq![
                Decoration::Italic,
                Decoration::NewLine,
            ],
            r.item_requirement_text_renderer.layers@ == seq![
                Decoration::Color,
                Decoration::NewLine,
            ],
            r.item_normal_text_renderer.layers@ == seq![Decoration::NewLine],
            r.item_modifiers_text_render.layers@ == seq![Decoration::Color, Decoration::NewLine],
            r.item_modified_values_text_render.layers@ == seq![
                Decoration::HighlightModifications,
                Decoration::NewLine,
            ],
    {
        let r = Self {
            item_title_text_renderer: TextRendererBuilder::new().with_color().with_bold().with_italic().with_highlight().build(),
            item_class_type_text_renderer: TextRendererBuilder::new().with_italic().build(),
            item_requirement_text_renderer: TextRendererBuilder::new().with_color().build(),
            item_normal_text_renderer: TextRendererBuilder::new().build(),
            item_modifiers_text_render: TextRendererBuilder::new().with_color().build(),
            item_modified_values_text_render: TextRendererBuilder::new().with_highlight_modifications().build(),
        };
        assert(r.item_title_text_renderer.layers@ =~= seq![
            Decoration::Color,
            Decoration::Bold,
            Decoration::Italic,
            Decoration::Highlight,
            Decoration::NewLine,
        ]);
        assert(r.item_class_type_text_renderer.layers@ =~= seq![
            Decoration::Italic,
            Decoration::NewLine,
        ]);
        assert(r.item_requirement_text_renderer.layers@ =~= seq![
            Decoration::Color,
            Decoration::NewLine,
        ]);
        assert(r.item_normal_text_renderer.layers@ =~= seq![Decoration::NewLine]);
        assert(r.item_modifiers_text_render.layers@ =~= seq![
            Decoration::Color,
            Decoration::NewLine,
        ]);
        assert(r.item_modified_values_text_render.layers@ =~= seq![
            Decoration::HighlightModifications,
            Decoration::NewLine,
        ]);
        r
    }
}

/// The console text of an item view: name (if any) and base as titles, the
/// damage line, the requirements, the class, then the modifier lines.
pub open spec fn item_view_text(ui: ConsoleUI, v: ItemView) -> Seq<char> {
    let title = ui.item_title_text_renderer;
    let names = match v.item_name {
        Some(n) => title.rendered(n.value@, n.style) + title.rendered(
            v.item_base.value@,
            v.item_base.style,
        ),
        None => title.rendered(v.item_base.value@, v.item_base.style),
    };
    let damage = match v.damage {
        Some(d) => ui.item_modified_values_text_render.rendered(d.value@, d.style),
        None => Seq::empty(),
    };
    names + damage + lines_text(ui.item_requirement_text_renderer, v.requirements@)
        + ui.item_class_type_text_renderer.rendered(v.item_class.value@, v.item_class.style)
        + lines_text(ui.item_modifiers_text_render, v.description@)
}

/// Each text of `lines` rendered by `r`, one after another.
pub open spec fn lines_text(r: LayeredRenderer, lines: Seq<TextView>) -> Seq<char>
    decreases lines.len(),
{
    if lines.len() == 0 {
        Seq::empty()
    } else {
        lines_text(r, lines.drop_last()) + r.rendered(lines.last().value@, lines.last().style)
    }
}

fn render_lines(r: &LayeredRenderer, lines: &Vec<TextView>, out: &mut String)
    ensures
        final(out)@ == old(out)@ + lines_text(*r, lines@),
{
    let mut i: usize = 0;
    while i < lines.len()
        invariant
            i <= lines.len(),
            out@ == old(out)@ + lines_text(*r, lines@.subrange(0, i as int)),
        decreases lines.len() - i,
    {
        let line = r.render(&lines[i]);
        out.append(line.as_str());
        assert(lines@.subrange(0, i + 1).drop_last() =~= lines@.subrange(0, i as int));
        i = i + 1;
    }
    assert(lines@.subrange(0, lines.len() as int) =~= lines@);
}

impl ConsoleUI {
    /// The text to write for an item view.
    pub fn display_item_view(&self, item_view: &ItemView) -> (r: String)
        ensures
            r@ == item_view_text(*self, *item_view),
    {
        let mut out = String::new();
        match &item_view.item_name {
            Some(n) => {
                let a = self.item_title_text_renderer.render(n);
                out.append(a.as_str());
                let b = self.item_title_text_renderer.render(&item_view.item_base);
                out.append(b.as_str());
            },
            None => {
                let b = self.item_title_text_renderer.render(&item_view.item_base);
                out.append(b.as_str());
            },
        }
        match &item_view.damage {
            Some(d) => {
                let t = self.item_modified_values_text_render.render(d);
                out.append(t.as_str());
            },
            None => {},
        }
        render_lines(&self.item_requirement_text_renderer, &item_view.requirements, &mut out);
        let class_line = self.item_class_type_text_renderer.render(&item_view.item_class);
        out.append(class_line.as_str());
        render_lines(&self.item_modifiers_text_render, &item_view.description, &mut out);
        assert(out@ =~= item_view_text(*self, *item_view));
        out
    }
}

} // verus!
