use vstd::prelude::*;

verus! {

/// A value bound to a query placeholder.
pub enum SqlArg {
    Text(String),
    Int(i32),
    BigInt(i64),
    Uuid(u128),
    /// A timestamp, in microseconds since the Unix epoch.
    Timestamp(i64),
}

/// A piece of a query under construction: literal SQL text, or a bound value.
pub enum SqlPiece {
    Sql(&'static str),
    Bind(SqlArg),
}

/// The plain-value model of a bound argument.
pub enum SqlArgView {
    Text(Seq<char>),
    Int(i32),
    BigInt(i64),
    Uuid(u128),
    Timestamp(i64),
}

/// The plain-value model of a query piece.
pub enum SqlPieceView {
    Sql(Seq<char>),
    Bind(SqlArgView),
}

impl View for SqlArg {
    type V = SqlArgView;

    open spec fn view(&self) -> SqlArgView {
        match self {
            SqlArg::Text(s) => SqlArgView::Text(s@),
            SqlArg::Int(i) => SqlArgView::Int(*i),
            SqlArg::BigInt(i) => SqlArgView::BigInt(*i),
            SqlArg::Uuid(u) => SqlArgView::Uuid(*u),
            SqlArg::Timestamp(t) => SqlArgView::Timestamp(*t),
        }
    }
}

impl View for SqlPiece {
    type V = SqlPieceView;

    open spec fn view(&self) -> SqlPieceView {
        match self {
            SqlPiece::Sql(s) => SqlPieceView::Sql(s@),
            SqlPiece::Bind(a) => SqlPieceView::Bind(a@),
        }
    }
}

/// A query as the sequence of pieces that a query builder receives in order:
/// `push` for each `Sql` piece and `push_bind` for each `Bind` piece.
pub struct SqlQuery {
    pub pieces: Vec<SqlPiece>,
}

impl View for SqlQuery {
    type V = Seq<SqlPieceView>;

    open spec fn view(&self) -> Seq<SqlPieceView> {
        self.pieces@.map_values(|p: SqlPiece| p@)
    }
}

/// Literal text, as a piece model.
pub open spec fn text(s: &'static str) -> SqlPieceView {
    SqlPieceView::Sql(s@)
}

impl SqlQuery {
    /// A query that starts with the given text.
    pub fn new(init: &'static str) -> (q: SqlQuery)
        ensures
            q@ == seq![text(init)],
    {
        let mut pieces = Vec::new();
        pieces.push(SqlPiece::Sql(init));
        let q = SqlQuery { pieces };
        assert(q@ =~= seq![text(init)]);
        q
    }

    /// Appends literal text.
    pub fn push(&mut self, s: &'static str)
        ensures
            final(self)@ == old(self)@.push(text(s)),
    {
        self.pieces.push(SqlPiece::Sql(s));
        assert(final(self)@ =~= old(self)@.push(text(s)));
    }

    /// Appends a bound value.
    pub fn push_bind(&mut self, a: SqlArg)
        ensures
            final(self)@ == old(self)@.push(SqlPieceView::Bind(a@)),
    {
        let ghost v = a@;
        self.pieces.push(SqlPiece::Bind(a));
        assert(final(self)@ =~= old(self)@.push(SqlPieceView::Bind(v)));
    }
}

} // verus!
