//! Reading a whole event sequence into a grid.
use crate::extract::{scan, Extractor};
use crate::model::{result_view, DemData, DemError};
use crate::normalize::{parse_spec, scan_result};
use crate::token::{tokens_view, XmlToken};
use vstd::prelude::*;

verus! {

/// Whatever a successful outcome holds, it has exactly width x height samples.
pub proof fn lemma_sample_count(s: crate::extract::ScanState)
    ensures
        scan_result(s) matches Ok(d) ==> d.metadata.width * d.metadata.height
            == d.elevation_values.len(),
{
}

/// Reads the events `tokens` of a document into a grid. Events after the one
/// that ends or fails the document are not looked at; a sequence that stops
/// early is read as if the document ended there.
pub fn parse_tokens(tokens: &Vec<XmlToken>) -> (r: Result<DemData, DemError>)
    ensures
        result_view(r) == parse_spec(tokens_view(tokens@)),
        r matches Ok(d) ==> d.metadata.width * d.metadata.height == d.elevation_values.len(),
{
    let ghost tv = tokens_view(tokens@);
    let mut ex = Extractor::new();
    let mut i: usize = 0;
    assert(tv.take(0) =~= Seq::<crate::token::TokenView>::empty());
    while i < tokens.len()
        invariant
            i <= tokens.len(),
            tv == tokens_view(tokens@),
            ex@ == scan(tv.take(i as int)),
        decreases tokens.len() - i,
    {
        ex.step(&tokens[i]);
        assert(tv.take(i + 1).drop_last() =~= tv.take(i as int));
        i = i + 1;
    }
    assert(tv.take(i as int) =~= tv);
    proof {
        lemma_sample_count(ex@);
    }
    let r = ex.finish();
    assert(r matches Ok(d) ==> d@.elevation_values.len() == d.elevation_values.len());
    r
}

} // verus!
