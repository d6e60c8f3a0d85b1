use vstd::prelude::*;
use vstd::string::StringExecFns;

verus! {

/// A clickable control with a text label.
pub struct Button {
    pub width: u32,
    pub height: u32,
    pub label: String,
}

/// A raster element carrying its pixel data as text.
pub struct Image {
    pub width: u32,
    pub height: u32,
    pub pixel: String,
}

/// One renderable value. The set of kinds is closed and known in advance,
/// so a tagged union dispatched by a single match replaces open-ended
/// virtual dispatch.
pub enum Shape {
    Button(Button),
    Image(Image),
}

/// The line of text that drawing a shape emits.
pub open spec fn render_spec(s: Shape) -> Seq<char> {
    match s {
        Shape::Button(b) => "label is "@ + b.label@,
        Shape::Image(i) => "pixel is "@ + i.pixel@,
    }
}

/// The lines that drawing each shape of a sequence emits, in order.
pub open spec fn rendered(shapes: Seq<Shape>) -> Seq<Seq<char>> {
    shapes.map(|i: int, s: Shape| render_spec(s))
}

impl Shape {
    /// Renders this shape as its one line of output text: its descriptive
    /// field behind a fixed prefix.
    pub fn draw(&self) -> (line: String)
        ensures
            line@ == render_spec(*self),
    {
        match self {
            Shape::Button(b) => {
                let mut line = "label is ".to_owned();
                line.append(b.label.as_str());
                line
            },
            Shape::Image(i) => {
                let mut line = "pixel is ".to_owned();
                line.append(i.pixel.as_str());
                line
            },
        }
    }
}

/// An ordered registry of renderable values; insertion order is render order.
pub struct Screen {
    pub components: Vec<Shape>,
}

impl Screen {
    /// An empty screen: nothing has been added, so nothing will be drawn.
    pub fn new() -> (s: Screen)
        ensures
            s.components@.len() == 0,
    {
        Screen { components: Vec::new() }
    }

    /// Appends a shape at the end of the sequence; always succeeds.
    pub fn add(&mut self, shape: Shape)
        ensures
            final(self).components@ == old(self).components@.push(shape),
    {
        self.components.push(shape);
    }

    /// Draws every component exactly once, in insertion order: the result
    /// holds one line per component, the i-th line rendering the i-th
    /// component added.
    pub fn run(&self) -> (lines: Vec<String>)
        ensures
            lines@.len() == self.components@.len(),
            forall|i: int|
                0 <= i < lines@.len() ==> #[trigger] lines@[i]@ == render_spec(
                    self.components@[i],
                ),
            lines@.map_values(|l: String| l@) == rendered(self.components@),
    {
        let mut lines: Vec<String> = Vec::new();
        let n = self.components.len();
        for idx in 0..n
            invariant
                n == self.components@.len(),
                lines@.len() == idx,
                forall|i: int|
                    0 <= i < idx ==> #[trigger] lines@[i]@ == render_spec(self.components@[i]),
        {
            lines.push(self.components[idx].draw());
        }
        proof {
            assert(lines@.map_values(|l: String| l@) =~= rendered(self.components@));
        }
        lines
    }
}

/// Drawing a sequence of N shapes emits exactly N lines, and the i-th line
/// renders the i-th shape: one draw per element, in the order of the sequence.
pub proof fn lemma_rendered_count(shapes: Seq<Shape>)
    ensures
        rendered(shapes).len() == shapes.len(),
        forall|i: int| 0 <= i < shapes.len() ==> #[trigger] rendered(shapes)[i] == render_spec(
            shapes[i],
        ),
{
}

/// A screen to which nothing was added emits no output at all.
pub proof fn lemma_rendered_empty(shapes: Seq<Shape>)
    requires
        shapes.len() == 0,
    ensures
        rendered(shapes).len() == 0,
{
}

} // verus!
