use vstd::prelude::*;

verus! {

/// The four statement kinds.
#[derive(Clone, Copy, Debug, PartialEq, Eq, Structural)]
pub enum StatementKind {
    Select,
    Insert,
    Delete,
    Update,
}

/// The logical word that joins a condition to the one before it.
#[derive(Clone, Copy, Debug, PartialEq, Eq, Structural)]
pub enum Connective {
    And,
    Or,
}

/// One `field operator value` fragment of a filter clause.
pub struct Condition {
    /// `None` for the first condition of a clause.
    pub connective: Option<Connective>,
    /// The field, operator and value joined by single spaces.
    pub text: String,
}

/// A parsed statement.
pub struct Query {
    pub kind: Option<StatementKind>,
    pub table: Option<String>,
    pub fields: Vec<String>,
    pub values: Vec<String>,
    pub conditions: Vec<Condition>,
}

/// A parsed statement as a mathematical value.
pub struct QueryModel {
    pub kind: Option<StatementKind>,
    pub table: Option<Seq<char>>,
    pub fields: Seq<Seq<char>>,
    pub values: Seq<Seq<char>>,
    pub conditions: Seq<(Option<Connective>, Seq<char>)>,
}

pub open spec fn empty_query() -> QueryModel {
    QueryModel {
        kind: None,
        table: None,
        fields: Seq::empty(),
        values: Seq::empty(),
        conditions: Seq::empty(),
    }
}

impl Condition {
    pub open spec fn model(&self) -> (Option<Connective>, Seq<char>) {
        (self.connective, self.text@)
    }
}

pub open spec fn opt_string_model(s: Option<String>) -> Option<Seq<char>> {
    match s {
        Some(t) => Some(t@),
        None => None,
    }
}

pub open spec fn strings_model(v: Seq<String>) -> Seq<Seq<char>> {
    v.map_values(|s: String| s@)
}

impl Query {
    pub open spec fn model(&self) -> QueryModel {
        QueryModel {
            kind: self.kind,
            table: opt_string_model(self.table),
            fields: strings_model(self.fields@),
            values: strings_model(self.values@),
            conditions: self.conditions@.map_values(|c: Condition| c.model()),
        }
    }

    /// A query with nothing set yet.
    pub fn empty() -> (q: Query)
        ensures
            q.model() == empty_query(),
    {
        let q = Query {
            kind: None,
            table: None,
            fields: Vec::new(),
            values: Vec::new(),
            conditions: Vec::new(),
        };
        assert(q.model().fields =~= Seq::empty());
        assert(q.model().values =~= Seq::empty());
        assert(q.model().conditions =~= Seq::empty());
        q
    }

    pub(crate) fn push_field(&mut self, f: String)
        ensures
            final(self).model() == (QueryModel {
                fields: old(self).model().fields.push(f@),
                ..old(self).model()
            }),
    {
        self.fields.push(f);
        assert(final(self).model().fields =~= old(self).model().fields.push(f@));
    }

    pub(crate) fn push_value(&mut self, v: String)
        ensures
            final(self).model() == (QueryModel {
                values: old(self).model().values.push(v@),
                ..old(self).model()
            }),
    {
        self.values.push(v);
        assert(final(self).model().values =~= old(self).model().values.push(v@));
    }

    pub(crate) fn push_condition(&mut self, c: Condition)
        ensures
            final(self).model() == (QueryModel {
                conditions: old(self).model().conditions.push(c.model()),
                ..old(self).model()
            }),
    {
        let ghost cm = c.model();
        self.conditions.push(c);
        assert(final(self).model().conditions =~= old(self).model().conditions.push(cm));
    }
}

} // verus!
