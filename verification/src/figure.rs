//! Coloured shapes.

use vstd::prelude::*;
use vstd::string::StringExecFns;

verus! {

/// The outline of a figure.
#[derive(Clone, Copy, Debug, PartialEq, Eq, Structural)]
pub enum Shape {
    Circle,
    Square,
    Rectangle,
    Triangle,
}

/// A colour, with its intensity.
#[derive(Clone, Copy, Debug, PartialEq, Eq, Structural)]
pub enum Color {
    Red(i8),
    Green(i8),
    Blue(i8),
}

/// A shape in a colour.
pub struct Figure {
    pub shape: Shape,
    pub color: Color,
}

impl Shape {
    /// What the shape is called.
    pub open spec fn name_of(self) -> Seq<char> {
        match self {
            Shape::Circle => "Circle"@,
            Shape::Square => "Square"@,
            Shape::Rectangle => "Rectangle"@,
            Shape::Triangle => "Triangle"@,
        }
    }

    /// Names the shape.
    pub fn name(&self) -> (name: String)
        ensures
            name@ == self.name_of(),
    {
        match self {
            Shape::Circle => String::from_str("Circle"),
            Shape::Square => String::from_str("Square"),
            Shape::Rectangle => String::from_str("Rectangle"),
            Shape::Triangle => String::from_str("Triangle"),
        }
    }
}

impl Color {
    /// What the colour is called, whatever its intensity.
    pub open spec fn name_of(self) -> Seq<char> {
        match self {
            Color::Red(_) => "Red"@,
            Color::Green(_) => "Green"@,
            Color::Blue(_) => "Blue"@,
        }
    }

    /// Names the colour.
    pub fn to_string(&self) -> (name: String)
        ensures
            name@ == self.name_of(),
    {
        match self {
            Color::Red(_) => String::from_str("Red"),
            Color::Green(_) => String::from_str("Green"),
            Color::Blue(_) => String::from_str("Blue"),
        }
    }
}

impl Figure {
    /// What the figure is called: its colour, a space, and its shape.
    pub open spec fn label(self) -> Seq<char> {
        self.color.name_of() + " "@ + self.shape.name_of()
    }

    /// Makes a figure of a shape and a colour.
    pub fn new(shape: Shape, color: Color) -> (figure: Figure)
        ensures
            figure.shape == shape,
            figure.color == color,
    {
        Figure { shape, color }
    }

    /// Describes the figure in words.
    pub fn display(&self) -> (words: String)
        ensures
            words@ == self.label(),
    {
        let mut words: String = self.color.to_string();
        words.append(" ");
        words.append(self.shape.name().as_str());
        words
    }
}

} // verus!
