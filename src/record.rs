use vstd::prelude::*;

verus! {

/// One searchable entry: the symbol itself, its display name and its keywords.
#[derive(Clone, Debug, PartialEq)]
pub struct Record {
    pub symbol: String,
    pub name: String,
    pub keywords: Vec<String>,
}

/// The mathematical content of a [`Record`].
pub struct RecordView {
    pub symbol: Seq<char>,
    pub name: Seq<char>,
    pub keywords: Seq<Seq<char>>,
}

impl View for Record {
    type V = RecordView;

    open spec fn view(&self) -> RecordView {
        RecordView {
            symbol: self.symbol@,
            name: self.name@,
            keywords: self.keywords@.map_values(|k: String| k@),
        }
    }
}

/// The views of a sequence of records, in order.
pub open spec fn views(rs: Seq<Record>) -> Seq<RecordView> {
    rs.map_values(|r: Record| r@)
}

impl Record {
    pub fn new(symbol: String, name: String, keywords: Vec<String>) -> (r: Record)
        ensures
            r.symbol == symbol,
            r.name == name,
            r.keywords == keywords,
    {
        Record { symbol, name, keywords }
    }

    /// A copy of this record with the same content.
    pub fn duplicate(&self) -> (r: Record)
        ensures
            r@ == self@,
    {
        let mut keywords: Vec<String> = Vec::new();
        let mut i: usize = 0;
        while i < self.keywords.len()
            invariant
                i <= self.keywords.len(),
                keywords@.len() == i,
                forall|j: int| 0 <= j < i ==> #[trigger] keywords@[j]@ == self.keywords@[j]@,
            decreases self.keywords.len() - i,
        {
            keywords.push(self.keywords[i].clone());
            i = i + 1;
        }
        let r = Record { symbol: self.symbol.clone(), name: self.name.clone(), keywords };
        assert(r@.keywords =~= self@.keywords);
        r
    }
}

} // verus!
