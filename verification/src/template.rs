//! Text with numbers that are still to be worked out.
use crate::expr::Expr;
use vstd::prelude::*;
use vstd::string::*;

verus! {

/// A piece of a text.
#[derive(Debug)]
pub enum Piece {
    Text(String),
    /// A number with a fixed number of decimals, filled up with leading zeros to a width.
    Number { value: Expr, decimals: usize, width: usize },
    /// A whole number, filled up with leading zeros to a width.
    Whole { value: Expr, width: usize },
}

/// The view of a [`Piece`].
pub enum PieceView {
    Text(Seq<char>),
    Number { value: Expr, decimals: usize, width: usize },
    Whole { value: Expr, width: usize },
}

impl Piece {
    pub open spec fn view(&self) -> PieceView {
        match self {
            Piece::Text(s) => PieceView::Text(s@),
            Piece::Number { value, decimals, width } => PieceView::Number {
                value: *value,
                decimals: *decimals,
                width: *width,
            },
            Piece::Whole { value, width } => PieceView::Whole { value: *value, width: *width },
        }
    }
}

/// A text in pieces.
#[derive(Debug)]
pub struct Template {
    pub pieces: Vec<Piece>,
}

impl Template {
    pub open spec fn view(&self) -> Seq<PieceView> {
        self.pieces@.map_values(|p: Piece| p@)
    }

    /// A template without pieces.
    pub fn new() -> (r: Self)
        ensures
            r@ == Seq::<PieceView>::empty(),
    {
        let r = Template { pieces: Vec::new() };
        assert(r@ =~= Seq::<PieceView>::empty());
        r
    }

    /// Appends all pieces of another template.
    pub fn append(&mut self, other: Template)
        ensures
            final(self)@ == old(self)@ + other@,
    {
        let ghost added = other@;
        let mut pieces = other.pieces;
        self.pieces.append(&mut pieces);
        assert(self@ =~= old(self)@ + added);
    }

    /// A template that begins with a text.
    pub fn of(s: &str) -> (r: Self)
        ensures
            r@ == seq![PieceView::Text(s@)],
    {
        let mut pieces: Vec<Piece> = Vec::new();
        pieces.push(Piece::Text(s.to_string()));
        let r = Template { pieces };
        assert(r@ =~= seq![PieceView::Text(s@)]);
        r
    }

    /// Appends a text.
    pub fn text(&mut self, s: &str)
        ensures
            final(self)@ == old(self)@.push(PieceView::Text(s@)),
    {
        self.pieces.push(Piece::Text(s.to_string()));
        assert(self@ =~= old(self)@.push(PieceView::Text(s@)));
    }

    /// Appends a number with a fixed number of decimals.
    pub fn number(&mut self, value: Expr, decimals: usize)
        ensures
            final(self)@ == old(self)@.push(PieceView::Number { value, decimals, width: 0 }),
    {
        self.padded(value, decimals, 0);
    }

    /// Appends a number with a fixed number of decimals and a width.
    pub fn padded(&mut self, value: Expr, decimals: usize, width: usize)
        ensures
            final(self)@ == old(self)@.push(PieceView::Number { value, decimals, width }),
    {
        self.pieces.push(Piece::Number { value, decimals, width });
        assert(self@ =~= old(self)@.push(PieceView::Number { value, decimals, width }));
    }

    /// Appends a whole number with a width.
    pub fn whole(&mut self, value: Expr, width: usize)
        ensures
            final(self)@ == old(self)@.push(PieceView::Whole { value, width }),
    {
        self.pieces.push(Piece::Whole { value, width });
        assert(self@ =~= old(self)@.push(PieceView::Whole { value, width }));
    }
}

/// The views of some templates.
pub open spec fn template_views(list: Seq<Template>) -> Seq<Seq<PieceView>> {
    list.map_values(|t: Template| t@)
}

/// Appends a template to a list.
pub fn push_template(list: &mut Vec<Template>, t: Template)
    ensures
        template_views(final(list)@) == template_views(old(list)@).push(t@),
{
    list.push(t);
    assert(template_views(list@) =~= template_views(old(list)@).push(t@));
}

} // verus!
