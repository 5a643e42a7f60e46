//! The tolerant response extractor: turns free-form model output into a
//! `CommunicationFeedback` record, degrading through three tiers — a strict
//! parse of the whole text, a retry on the brace-delimited core, and a
//! heuristic scan for numeric score tokens.

use vstd::prelude::*;

use serde_json::Value;

use crate::communication_types::{
    view_opt_observations, view_opt_string, view_opt_strings, CommunicationFeedback,
    CommunicationObservations, FeedbackView, ObservationsView,
};
use crate::json::{
    jnode_of, json_doc, json_parse, number_to_string, value_as_array, value_as_number,
    value_as_str, value_get, value_is_null, value_is_object, JsonNode,
};
use crate::score::{
    all_zero_digits, digits_end, frac_thousandths, is_ascii_digit, lemma_digits_end,
    parse_score_text, read_frac_part, read_int_part, score_from_capped, score_from_parts,
    score_of_decimal_text, Score,
};

verus! {

/// The first index at or after `i` holding `c`, or the length when none does.
pub open spec fn find_from(s: Seq<char>, i: int, c: char) -> int
    recommends
        0 <= i <= s.len(),
    decreases s.len() - i,
{
    if i < 0 || i >= s.len() {
        s.len() as int
    } else if s[i] == c {
        i
    } else {
        find_from(s, i + 1, c)
    }
}

/// The last index at or before `i` holding `c`, or -1 when none does.
pub open spec fn find_last(s: Seq<char>, i: int, c: char) -> int
    recommends
        i < s.len(),
    decreases i + 1,
{
    if i < 0 || i >= s.len() {
        -1
    } else if s[i] == c {
        i
    } else {
        find_last(s, i - 1, c)
    }
}

/// The brace-delimited core of a text: the inclusive span from the first
/// opening brace to the last closing brace, when the former comes strictly
/// before the latter; otherwise the whole text.
pub open spec fn boundary_view(s: Seq<char>) -> Seq<char> {
    let start = find_from(s, 0, '{');
    let end = find_last(s, s.len() - 1, '}');
    if start < s.len() && end >= 0 && start < end {
        s.subrange(start, end + 1)
    } else {
        s
    }
}

/// Finds the first occurrence of `c` at or after `from`.
fn find_char_from(s: &str, from: usize, c: char) -> (r: usize)
    requires
        from <= s@.len(),
    ensures
        r == find_from(s@, from as int, c),
        from <= r <= s@.len(),
{
    let len = s.unicode_len();
    let mut i = from;
    while i < len
        invariant
            from <= i <= len,
            len == s@.len(),
            find_from(s@, from as int, c) == find_from(s@, i as int, c),
        decreases len - i,
    {
        if s.get_char(i) == c {
            return i;
        }
        i = i + 1;
    }
    i
}

/// Finds the last occurrence of `c` in the text, as its index plus one;
/// zero when the character does not occur.
fn find_char_last(s: &str, c: char) -> (r: usize)
    ensures
        r == find_last(s@, s@.len() - 1, c) + 1,
        r <= s@.len(),
{
    let len = s.unicode_len();
    let mut j = len;
    while j > 0
        invariant
            j <= len,
            len == s@.len(),
            find_last(s@, len - 1, c) == find_last(s@, j - 1, c),
        decreases j,
    {
        j = j - 1;
        if s.get_char(j) == c {
            return j + 1;
        }
    }
    0
}

/// Extracts the brace-delimited object from a response that might contain
/// extra prose: the inclusive substring from the first `{` to the last `}`
/// when both exist in that order, else the response unchanged.
pub fn extract_json_from_response(response: &str) -> (r: String)
    ensures
        r@ == boundary_view(response@),
{
    let len = response.unicode_len();
    let start = find_char_from(response, 0, '{');
    let end_plus = find_char_last(response, '}');
    if start < len && end_plus > 0 && start < end_plus - 1 {
        response.substring_char(start, end_plus).to_owned()
    } else {
        response.to_owned()
    }
}

/// A `/10` marker immediately at position `i`.
pub open spec fn has_slash10(s: Seq<char>, i: int) -> bool {
    i + 3 <= s.len() && s[i] == '/' && s[i + 1] == '1' && s[i + 2] == '0'
}

/// A `de 10` marker immediately at position `i`.
pub open spec fn has_de10(s: Seq<char>, i: int) -> bool {
    i + 5 <= s.len() && s[i] == 'd' && s[i + 1] == 'e' && s[i + 2] == ' ' && s[i + 3] == '1'
        && s[i + 4] == '0'
}

/// The position after an optional score marker (`/10` or `de 10`) at `i`.
pub open spec fn marker_end(s: Seq<char>, i: int) -> int {
    if has_slash10(s, i) {
        i + 3
    } else if has_de10(s, i) {
        i + 5
    } else {
        i
    }
}

/// The in-range score tokens of the text from position `i` on, in order of
/// first appearance. A token is a digit run, optionally a dot and a further
/// digit run, optionally a score marker; its score is kept when the denoted
/// value lies in [0, 10].
pub open spec fn scan_from(s: Seq<char>, i: int) -> Seq<Score>
    recommends
        0 <= i,
    decreases s.len() - i,
{
    if i < 0 || i >= s.len() {
        Seq::empty()
    } else if !is_ascii_digit(s[i]) {
        scan_from(s, i + 1)
    } else {
        let ie = digits_end(s, i);
        let has_dot = ie < s.len() && s[ie] == '.';
        let fe = if has_dot {
            digits_end(s, ie + 1)
        } else {
            ie
        };
        let after = marker_end(s, fe);
        let next = if i + 1 <= after && after <= s.len() {
            after
        } else {
            i + 1
        };
        let v = score_from_parts(
            s.subrange(i, ie),
            if has_dot {
                s.subrange(ie + 1, fe)
            } else {
                Seq::empty()
            },
        );
        match v {
            Some(sc) => seq![sc] + scan_from(s, next),
            None => scan_from(s, next),
        }
    }
}

/// Consumes an optional score marker at position `i`.
fn marker_end_exec(s: &str, i: usize) -> (r: usize)
    requires
        i <= s@.len(),
    ensures
        r == marker_end(s@, i as int),
        i <= r <= s@.len(),
{
    let len = s.unicode_len();
    if len - i >= 3 && s.get_char(i) == '/' && s.get_char(i + 1) == '1' && s.get_char(i + 2) == '0'
    {
        return i + 3;
    }
    if len - i >= 5 && s.get_char(i) == 'd' && s.get_char(i + 1) == 'e' && s.get_char(i + 2) == ' '
        && s.get_char(i + 3) == '1' && s.get_char(i + 4) == '0' {
        return i + 5;
    }
    i
}

/// Scans the text left to right and collects every score token whose value
/// lies in [0, 10], in order of first appearance.
pub fn scan_scores(s: &str) -> (r: Vec<Score>)
    ensures
        r@ == scan_from(s@, 0),
{
    let len = s.unicode_len();
    let mut out: Vec<Score> = Vec::new();
    let mut i: usize = 0;
    while i < len
        invariant
            i <= len,
            len == s@.len(),
            scan_from(s@, 0) == out@ + scan_from(s@, i as int),
        decreases len - i,
    {
        let c = s.get_char(i);
        let cu = c as u32;
        if !(48 <= cu && cu <= 57) {
            i = i + 1;
        } else {
            let ghost i0 = i as int;
            proof {
                lemma_digits_end(s@, i0);
            }
            let (ie, int_acc) = read_int_part(s, i);
            let mut has_dot = false;
            let mut fe = ie;
            let mut frac: u32 = 0;
            let mut az: bool = true;
            if ie < len && s.get_char(ie) == '.' {
                has_dot = true;
                let (f, fr, a) = read_frac_part(s, ie + 1);
                fe = f;
                frac = fr;
                az = a;
            }
            proof {
                if !has_dot {
                    assert(frac == frac_thousandths(Seq::<char>::empty()));
                    assert(az == all_zero_digits(Seq::<char>::empty()));
                }
            }
            let after = marker_end_exec(s, fe);
            let v = score_from_capped(int_acc, frac, az);
            let ghost frac_seq = if has_dot {
                s@.subrange(ie as int + 1, fe as int)
            } else {
                Seq::<char>::empty()
            };
            proof {
                assert(v == score_from_parts(s@.subrange(i0, ie as int), frac_seq));
                assert(i0 + 1 <= after as int && after as int <= s@.len());
            }
            let ghost out0 = out@;
            match v {
                Some(sc) => {
                    out.push(sc);
                    proof {
                        assert(scan_from(s@, i0) == seq![sc] + scan_from(s@, after as int));
                        assert(out0 + (seq![sc] + scan_from(s@, after as int)) =~= out@
                            + scan_from(s@, after as int));
                    }
                },
                None => {
                    proof {
                        assert(scan_from(s@, i0) == scan_from(s@, after as int));
                    }
                },
            }
            i = after;
        }
    }
    proof {
        assert(scan_from(s@, i as int) =~= Seq::<Score>::empty());
        assert(out@ + Seq::<Score>::empty() =~= out@);
    }
    out
}

/// A score field of a record object: absent or null means no score, a number
/// must be a plain decimal in [0, 10], and any other shape fails the record.
pub open spec fn score_field(m: Map<Seq<char>, JsonNode>, key: Seq<char>) -> Option<Option<Score>> {
    if !m.contains_key(key) {
        Some(None)
    } else {
        match m[key] {
            JsonNode::Null => Some(None),
            JsonNode::Num(t) => match score_of_decimal_text(t) {
                Some(sc) => Some(Some(sc)),
                None => None,
            },
            _ => None,
        }
    }
}

/// A free-text field of a record object: absent or null means no text, and
/// any non-string value fails the record.
pub open spec fn string_field(m: Map<Seq<char>, JsonNode>, key: Seq<char>) -> Option<
    Option<Seq<char>>,
> {
    if !m.contains_key(key) {
        Some(None)
    } else {
        match m[key] {
            JsonNode::Null => Some(None),
            JsonNode::Str(t) => Some(Some(t)),
            _ => None,
        }
    }
}

/// The texts of an array whose elements are all strings; absent otherwise.
pub open spec fn str_items(elems: Seq<JsonNode>) -> Option<Seq<Seq<char>>> {
    if forall|i: int| 0 <= i < elems.len() ==> (#[trigger] elems[i]) is Str {
        Some(Seq::new(elems.len(), |i: int| elems[i]->Str_0))
    } else {
        None
    }
}

/// A list-of-text field of a record object: absent or null means no list, an
/// array of strings gives the texts in order, anything else fails the record.
pub open spec fn string_list_field(m: Map<Seq<char>, JsonNode>, key: Seq<char>) -> Option<
    Option<Seq<Seq<char>>>,
> {
    if !m.contains_key(key) {
        Some(None)
    } else {
        match m[key] {
            JsonNode::Null => Some(None),
            JsonNode::Arr(es) => match str_items(es) {
                Some(ts) => Some(Some(ts)),
                None => None,
            },
            _ => None,
        }
    }
}

/// The observations sub-record denoted by a node: an object whose four known
/// fields each follow the free-text field rule.
pub open spec fn observations_of_node(n: JsonNode) -> Option<ObservationsView> {
    if !(n is Obj) {
        None
    } else {
        let m = n->Obj_0;
        let cl = string_field(m, "clarity"@);
        let st = string_field(m, "structure"@);
        let ob = string_field(m, "objections"@);
        let ca = string_field(m, "calls_to_action"@);
        if cl is Some && st is Some && ob is Some && ca is Some {
            Some(
                ObservationsView {
                    clarity: cl->0,
                    structure: st->0,
                    objections: ob->0,
                    calls_to_action: ca->0,
                },
            )
        } else {
            None
        }
    }
}

/// The observations field of a record object: absent or null means no
/// sub-record, and any other shape must be a well-formed observations object.
pub open spec fn observations_field(m: Map<Seq<char>, JsonNode>, key: Seq<char>) -> Option<
    Option<ObservationsView>,
> {
    if !m.contains_key(key) {
        Some(None)
    } else if m[key] is Null {
        Some(None)
    } else {
        match observations_of_node(m[key]) {
            Some(o) => Some(Some(o)),
            None => None,
        }
    }
}

/// The evaluation record denoted by a JSON tree: a single object whose known
/// fields each have the right shape; unknown fields are ignored and missing
/// fields become absent.
pub open spec fn record_of_node(n: JsonNode) -> Option<FeedbackView> {
    if !(n is Obj) {
        None
    } else {
        let m = n->Obj_0;
        let os = score_field(m, "overall_score"@);
        let cl = score_field(m, "clarity"@);
        let en = score_field(m, "engagement"@);
        let st = score_field(m, "structure"@);
        let fb = string_field(m, "feedback"@);
        let sm = string_field(m, "summary"@);
        let sg = string_list_field(m, "strengths"@);
        let ai = string_list_field(m, "areas_to_improve"@);
        let ob = observations_field(m, "observations"@);
        if os is Some && cl is Some && en is Some && st is Some && fb is Some && sm is Some
            && sg is Some && ai is Some && ob is Some {
            Some(
                FeedbackView {
                    overall_score: os->0,
                    clarity: cl->0,
                    engagement: en->0,
                    structure: st->0,
                    feedback: fb->0,
                    summary: sm->0,
                    strengths: sg->0,
                    areas_to_improve: ai->0,
                    observations: ob->0,
                },
            )
        } else {
            None
        }
    }
}

/// What the strict tier yields on a text: the record of the parsed document,
/// absent when the text is not a single valid document of the right shape.
pub open spec fn strict_view(s: Seq<char>) -> Option<FeedbackView> {
    match json_doc(s) {
        None => None,
        Some(n) => record_of_node(n),
    }
}

/// Reads one score field of a record object.
fn opt_score_field(v: &Value, key: &str) -> (r: Option<Option<Score>>)
    requires
        jnode_of(*v) is Obj,
    ensures
        r == score_field(jnode_of(*v)->Obj_0, key@),
{
    match value_get(v, key) {
        None => Some(None),
        Some(f) => {
            if value_is_null(f) {
                Some(None)
            } else {
                match value_as_number(f) {
                    Some(n) => {
                        let t = number_to_string(n);
                        match parse_score_text(t.as_str()) {
                            Some(sc) => Some(Some(sc)),
                            None => None,
                        }
                    },
                    None => None,
                }
            }
        },
    }
}

/// Reads one free-text field of a record object.
fn opt_string_field(v: &Value, key: &str) -> (r: Option<Option<String>>)
    requires
        jnode_of(*v) is Obj,
    ensures
        r is Some <==> string_field(jnode_of(*v)->Obj_0, key@) is Some,
        r is Some ==> Some(view_opt_string(r->0)) == string_field(jnode_of(*v)->Obj_0, key@),
{
    match value_get(v, key) {
        None => Some(None),
        Some(f) => {
            if value_is_null(f) {
                Some(None)
            } else {
                match value_as_str(f) {
                    Some(t) => Some(Some(t)),
                    None => None,
                }
            }
        },
    }
}

/// Reads one list-of-text field of a record object.
fn opt_string_list_field(v: &Value, key: &str) -> (r: Option<Option<Vec<String>>>)
    requires
        jnode_of(*v) is Obj,
    ensures
        r is Some <==> string_list_field(jnode_of(*v)->Obj_0, key@) is Some,
        r is Some ==> Some(view_opt_strings(r->0)) == string_list_field(jnode_of(*v)->Obj_0, key@),
{
    match value_get(v, key) {
        None => Some(None),
        Some(f) => {
            if value_is_null(f) {
                Some(None)
            } else {
                match value_as_array(f) {
                    None => None,
                    Some(arr) => {
                        let ghost elems = jnode_of(*f)->Arr_0;
                        let n = arr.len();
                        let mut items: Vec<String> = Vec::new();
                        let mut i: usize = 0;
                        while i < n
                            invariant
                                i <= n,
                                n == arr@.len(),
                                n == elems.len(),
                                jnode_of(*v) is Obj,
                                jnode_of(*v)->Obj_0.contains_key(key@),
                                jnode_of(*v)->Obj_0[key@] == JsonNode::Arr(elems),
                                forall|k: int|
                                    0 <= k < elems.len() ==> jnode_of(#[trigger] arr@[k])
                                        == elems[k],
                                forall|k: int| 0 <= k < i ==> (#[trigger] elems[k]) is Str,
                                items@.len() == i,
                                forall|k: int|
                                    0 <= k < i ==> (#[trigger] items@[k])@ == elems[k]->Str_0,
                            decreases n - i,
                        {
                            match value_as_str(&arr[i]) {
                                Some(st) => {
                                    items.push(st);
                                },
                                None => {
                                    proof {
                                        assert(jnode_of(arr@[i as int]) == elems[i as int]);
                                        assert(!(elems[i as int] is Str));
                                        assert(str_items(elems) is None);
                                    }
                                    return None;
                                },
                            }
                            i = i + 1;
                        }
                        proof {
                            assert(str_items(elems) is Some);
                            assert(items.deep_view() =~= str_items(elems)->0);
                        }
                        Some(Some(items))
                    },
                }
            }
        },
    }
}

/// Reads an observations object.
fn observations_from_value(f: &Value) -> (r: Option<CommunicationObservations>)
    ensures
        r is Some <==> observations_of_node(jnode_of(*f)) is Some,
        r is Some ==> Some(Some(r->0@)) == Some(observations_of_node(jnode_of(*f))),
{
    if !value_is_object(f) {
        return None;
    }
    let cl = match opt_string_field(f, "clarity") {
        Some(x) => x,
        None => {
            return None;
        },
    };
    let st = match opt_string_field(f, "structure") {
        Some(x) => x,
        None => {
            return None;
        },
    };
    let ob = match opt_string_field(f, "objections") {
        Some(x) => x,
        None => {
            return None;
        },
    };
    let ca = match opt_string_field(f, "calls_to_action") {
        Some(x) => x,
        None => {
            return None;
        },
    };
    Some(CommunicationObservations { clarity: cl, structure: st, objections: ob, calls_to_action: ca })
}

/// Reads the observations field of a record object.
fn opt_observations_field(v: &Value, key: &str) -> (r: Option<Option<CommunicationObservations>>)
    requires
        jnode_of(*v) is Obj,
    ensures
        r is Some <==> observations_field(jnode_of(*v)->Obj_0, key@) is Some,
        r is Some ==> Some(view_opt_observations(r->0)) == observations_field(
            jnode_of(*v)->Obj_0,
            key@,
        ),
{
    match value_get(v, key) {
        None => Some(None),
        Some(f) => {
            if value_is_null(f) {
                Some(None)
            } else {
                match observations_from_value(f) {
                    Some(o) => Some(Some(o)),
                    None => None,
                }
            }
        },
    }
}

/// Reads a whole evaluation record from a parsed document.
fn record_from_value(v: &Value) -> (r: Option<CommunicationFeedback>)
    ensures
        r is Some <==> record_of_node(jnode_of(*v)) is Some,
        r is Some ==> Some(r->0@) == record_of_node(jnode_of(*v)),
{
    if !value_is_object(v) {
        return None;
    }
    let os = match opt_score_field(v, "overall_score") {
        Some(x) => x,
        None => {
            return None;
        },
    };
    let cl = match opt_score_field(v, "clarity") {
        Some(x) => x,
        None => {
            return None;
        },
    };
    let en = match opt_score_field(v, "engagement") {
        Some(x) => x,
        None => {
            return None;
        },
    };
    let st = match opt_score_field(v, "structure") {
        Some(x) => x,
        None => {
            return None;
        },
    };
    let fb = match opt_string_field(v, "feedback") {
        Some(x) => x,
        None => {
            return None;
        },
    };
    let sm = match opt_string_field(v, "summary") {
        Some(x) => x,
        None => {
            return None;
        },
    };
    let sg = match opt_string_list_field(v, "strengths") {
        Some(x) => x,
        None => {
            return None;
        },
    };
    let ai = match opt_string_list_field(v, "areas_to_improve") {
        Some(x) => x,
        None => {
            return None;
        },
    };
    let ob = match opt_observations_field(v, "observations") {
        Some(x) => x,
        None => {
            return None;
        },
    };
    Some(
        CommunicationFeedback {
            overall_score: os,
            clarity: cl,
            engagement: en,
            structure: st,
            feedback: fb,
            summary: sm,
            strengths: sg,
            areas_to_improve: ai,
            observations: ob,
        },
    )
}

/// Attempts the strict tier on a text.
fn try_strict(s: &str) -> (r: Option<CommunicationFeedback>)
    ensures
        r is Some <==> strict_view(s@) is Some,
        r is Some ==> Some(r->0@) == strict_view(s@),
{
    match json_parse(s) {
        None => None,
        Some(val) => record_from_value(&val),
    }
}

/// The neutral default score of 5.0 used when no signal is recoverable.
pub open spec fn neutral_score() -> Score {
    Score { thousandths: 5000 }
}

/// What the heuristic tier yields: scores recovered from the token scan with
/// the overall score repeated for missing slots, or neutral defaults with a
/// canned message when no token qualifies.
pub open spec fn fallback_view(s: Seq<char>) -> FeedbackView {
    let scores = scan_from(s, 0);
    if scores.len() == 0 {
        FeedbackView {
            overall_score: Some(neutral_score()),
            clarity: Some(neutral_score()),
            engagement: Some(neutral_score()),
            structure: Some(neutral_score()),
            feedback: Some(
                "No se pudo generar una evaluación detallada. El texto de la transcripción fue analizado pero el formato de respuesta no fue válido."@,
            ),
            summary: None,
            strengths: None,
            areas_to_improve: None,
            observations: None,
        }
    } else {
        let overall = scores[0];
        FeedbackView {
            overall_score: Some(overall),
            clarity: Some(
                if scores.len() > 1 {
                    scores[1]
                } else {
                    overall
                },
            ),
            engagement: Some(
                if scores.len() > 2 {
                    scores[2]
                } else {
                    overall
                },
            ),
            structure: Some(
                if scores.len() > 3 {
                    scores[3]
                } else {
                    overall
                },
            ),
            feedback: Some("Evaluación parcial generada."@),
            summary: None,
            strengths: None,
            areas_to_improve: None,
            observations: None,
        }
    }
}

/// Creates a fallback feedback when no structured record can be parsed:
/// recovers in-range score tokens from the raw text, repeating the overall
/// score for missing slots, and falls back to neutral defaults. Never fails.
pub fn create_fallback_feedback(response: &str) -> (r: Result<CommunicationFeedback, String>)
    ensures
        r is Ok,
        r->Ok_0@ == fallback_view(response@),
{
    let scores = scan_scores(response);
    if scores.len() == 0 {
        Ok(
            CommunicationFeedback {
                overall_score: Some(Score { thousandths: 5000 }),
                clarity: Some(Score { thousandths: 5000 }),
                engagement: Some(Score { thousandths: 5000 }),
                structure: Some(Score { thousandths: 5000 }),
                feedback: Some(
                    "No se pudo generar una evaluación detallada. El texto de la transcripción fue analizado pero el formato de respuesta no fue válido.".to_owned(),
                ),
                summary: None,
                strengths: None,
                areas_to_improve: None,
                observations: None,
            },
        )
    } else {
        let overall = scores[0];
        let clarity = if scores.len() > 1 {
            scores[1]
        } else {
            overall
        };
        let engagement = if scores.len() > 2 {
            scores[2]
        } else {
            overall
        };
        let structure = if scores.len() > 3 {
            scores[3]
        } else {
            overall
        };
        Ok(
            CommunicationFeedback {
                overall_score: Some(overall),
                clarity: Some(clarity),
                engagement: Some(engagement),
                structure: Some(structure),
                feedback: Some("Evaluación parcial generada.".to_owned()),
                summary: None,
                strengths: None,
                areas_to_improve: None,
                observations: None,
            },
        )
    }
}

/// What extraction yields on a text: the strict tier on the whole text, then
/// the strict tier on the brace-delimited core, then the heuristic tier.
pub open spec fn extract_view(s: Seq<char>) -> FeedbackView {
    if strict_view(s) is Some {
        strict_view(s)->0
    } else if strict_view(boundary_view(s)) is Some {
        strict_view(boundary_view(s))->0
    } else {
        fallback_view(s)
    }
}

/// Parses a model response into a `CommunicationFeedback`, degrading through
/// the three tiers; total on every input.
pub fn parse_evaluation_response(response: &str) -> (r: Result<CommunicationFeedback, String>)
    ensures
        r is Ok,
        r->Ok_0@ == extract_view(response@),
{
    if let Some(fb) = try_strict(response) {
        return Ok(fb);
    }
    let core = extract_json_from_response(response);
    if let Some(fb) = try_strict(core.as_str()) {
        return Ok(fb);
    }
    create_fallback_feedback(response)
}

/// Law: when the whole text is not a single well-shaped record but its
/// brace-delimited core is, extraction returns exactly the record of that
/// core, ignoring the surrounding prose.
pub proof fn lemma_boundary_recovery(s: Seq<char>)
    requires
        strict_view(s) is None,
        strict_view(boundary_view(s)) is Some,
    ensures
        extract_view(s) == strict_view(boundary_view(s))->0,
{
}

/// Law: when neither strict tier recovers a record and no in-range score
/// token occurs, every score is the neutral 5.0 and a non-empty canned
/// feedback text is present.
pub proof fn lemma_neutral_default(s: Seq<char>)
    requires
        strict_view(s) is None,
        strict_view(boundary_view(s)) is None,
        scan_from(s, 0) == Seq::<Score>::empty(),
    ensures
        extract_view(s).overall_score == Some(neutral_score()),
        extract_view(s).clarity == Some(neutral_score()),
        extract_view(s).engagement == Some(neutral_score()),
        extract_view(s).structure == Some(neutral_score()),
        extract_view(s).feedback is Some,
        extract_view(s).feedback->0.len() > 0,
{
    reveal_strlit(
        "No se pudo generar una evaluación detallada. El texto de la transcripción fue analizado pero el formato de respuesta no fue válido.",
    );
}

/// Law: when neither strict tier recovers a record and the scan yields
/// exactly two in-range tokens, the first becomes the overall score, the
/// second clarity, and engagement and structure repeat the overall score.
pub proof fn lemma_two_token_fill(s: Seq<char>, a: Score, b: Score)
    requires
        strict_view(s) is None,
        strict_view(boundary_view(s)) is None,
        scan_from(s, 0) == seq![a, b],
    ensures
        extract_view(s).overall_score == Some(a),
        extract_view(s).clarity == Some(b),
        extract_view(s).engagement == Some(a),
        extract_view(s).structure == Some(a),
{
}

} // verus!
