use crate::parallel::DownloadResult;
use crate::text::{copy_text, text_of};
use vstd::prelude::*;

verus! {

/// One curated record.
#[derive(Debug, Clone)]
pub struct ParsedRecord {
    pub canonical_id: String,
    pub title: Option<String>,
    pub text_length: usize,
    pub has_buy_keywords: bool,
    pub quality_score: u32,
}

/// Download results laid out by column, one row for each result.
#[derive(Debug)]
pub struct ResultColumns {
    pub urls: Vec<String>,
    pub success: Vec<bool>,
    pub contents: Vec<Option<String>>,
    pub status_codes: Vec<Option<u64>>,
    pub errors: Vec<Option<String>>,
    pub durations: Vec<u64>,
}

/// The status code of a row, widened, where there is one.
pub open spec fn widened(status: Option<u16>) -> Option<u64> {
    match status {
        Some(code) => Some(code as u64),
        None => None,
    }
}

impl ResultColumns {
    /// Every column has `n` rows.
    pub open spec fn has_rows(&self, n: int) -> bool {
        &&& self.urls.len() == n
        &&& self.success.len() == n
        &&& self.contents.len() == n
        &&& self.status_codes.len() == n
        &&& self.errors.len() == n
        &&& self.durations.len() == n
    }

    /// Row `i` holds what `result` holds.
    pub open spec fn row_is(&self, i: int, result: DownloadResult) -> bool {
        &&& self.urls[i]@ == result.url@
        &&& self.success[i] == result.success
        &&& text_of(self.contents[i]) == text_of(result.content)
        &&& self.status_codes[i] == widened(result.status_code)
        &&& text_of(self.errors[i]) == text_of(result.error)
        &&& self.durations[i] == result.duration_ms
    }

    /// The columns hold `results`, row for row.
    pub open spec fn holds(&self, results: Seq<DownloadResult>) -> bool {
        &&& self.has_rows(results.len() as int)
        &&& forall|i: int| 0 <= i < results.len() ==> self.row_is(i, #[trigger] results[i])
    }
}

/// Lays download results out by column, in their order.
pub fn result_columns(results: &Vec<DownloadResult>) -> (columns: ResultColumns)
    ensures
        columns.holds(results@),
{
    let mut columns = ResultColumns {
        urls: Vec::new(),
        success: Vec::new(),
        contents: Vec::new(),
        status_codes: Vec::new(),
        errors: Vec::new(),
        durations: Vec::new(),
    };
    let mut i: usize = 0;
    while i < results.len()
        invariant
            i <= results.len(),
            columns.holds(results@.take(i as int)),
        decreases results.len() - i,
    {
        let r = &results[i];
        let ghost before = columns;
        columns.urls.push(r.url.clone());
        columns.success.push(r.success);
        columns.contents.push(copy_text(&r.content));
        columns.status_codes.push(
            match r.status_code {
                Some(code) => Some(code as u64),
                None => None,
            },
        );
        columns.errors.push(copy_text(&r.error));
        columns.durations.push(r.duration_ms);
        proof {
            let now = results@.take(i + 1);
            assert forall|k: int| 0 <= k < now.len() implies columns.row_is(k, #[trigger] now[k]) by {
                if k < i {
                    assert(before.row_is(k, results@.take(i as int)[k]));
                }
            }
        }
        i += 1;
    }
    assert(results@.take(i as int) =~= results@);
    columns
}

/// Curated records laid out by column, one row for each record.
#[derive(Debug)]
pub struct ParsedColumns {
    pub ids: Vec<String>,
    pub titles: Vec<Option<String>>,
    pub lengths: Vec<u64>,
    pub buy_keywords: Vec<bool>,
    pub quality: Vec<u64>,
}

impl ParsedColumns {
    /// Every column has `n` rows.
    pub open spec fn has_rows(&self, n: int) -> bool {
        &&& self.ids.len() == n
        &&& self.titles.len() == n
        &&& self.lengths.len() == n
        &&& self.buy_keywords.len() == n
        &&& self.quality.len() == n
    }

    /// Row `i` holds what `record` holds.
    pub open spec fn row_is(&self, i: int, record: ParsedRecord) -> bool {
        &&& self.ids[i]@ == record.canonical_id@
        &&& text_of(self.titles[i]) == text_of(record.title)
        &&& self.lengths[i] == record.text_length
        &&& self.buy_keywords[i] == record.has_buy_keywords
        &&& self.quality[i] == record.quality_score
    }

    /// The columns hold `records`, row for row.
    pub open spec fn holds(&self, records: Seq<ParsedRecord>) -> bool {
        &&& self.has_rows(records.len() as int)
        &&& forall|i: int| 0 <= i < records.len() ==> self.row_is(i, #[trigger] records[i])
    }
}

/// Lays curated records out by column, in their order.
pub fn parsed_columns(data: &Vec<ParsedRecord>) -> (columns: ParsedColumns)
    ensures
        columns.holds(data@),
{
    let mut columns = ParsedColumns {
        ids: Vec::new(),
        titles: Vec::new(),
        lengths: Vec::new(),
        buy_keywords: Vec::new(),
        quality: Vec::new(),
    };
    let mut i: usize = 0;
    while i < data.len()
        invariant
            i <= data.len(),
            columns.holds(data@.take(i as int)),
        decreases data.len() - i,
    {
        let r = &data[i];
        let ghost before = columns;
        columns.ids.push(r.canonical_id.clone());
        columns.titles.push(copy_text(&r.title));
        columns.lengths.push(r.text_length as u64);
        columns.buy_keywords.push(r.has_buy_keywords);
        columns.quality.push(r.quality_score as u64);
        proof {
            let now = data@.take(i + 1);
            assert forall|k: int| 0 <= k < now.len() implies columns.row_is(k, #[trigger] now[k]) by {
                if k < i {
                    assert(before.row_is(k, data@.take(i as int)[k]));
                }
            }
        }
        i += 1;
    }
    assert(data@.take(i as int) =~= data@);
    columns
}

} // verus!
