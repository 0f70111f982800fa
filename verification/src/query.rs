//! A model of URL query strings: how parameters are written into a query,
//! how a reader finds them again, and the lemmas that connect the two.

use vstd::prelude::*;

verus! {

/// Position of the first `mark` in `text`, or `text.len()` when there is none.
pub open spec fn first_index_of(text: Seq<char>, mark: char) -> int
    decreases text.len(),
{
    if text.len() == 0 {
        0
    } else if text[0] == mark {
        0
    } else {
        1 + first_index_of(text.skip(1), mark)
    }
}

/// True when `mark` occurs nowhere in `text`.
pub open spec fn lacks(text: Seq<char>, mark: char) -> bool {
    forall|i: int| 0 <= i < text.len() ==> #[trigger] text[i] != mark
}

/// A parameter as it is written in a query: name, `=`, value.
pub open spec fn parameter(name: Seq<char>, value: Seq<char>) -> Seq<char> {
    name + seq!['='] + value
}

/// The query component of a URL: what follows the first `?`, up to the first
/// `#` or the end; empty when the URL has no `?` before that.
pub open spec fn url_query(url: Seq<char>) -> Seq<char> {
    let visible = url.take(first_index_of(url, '#'));
    let mark = first_index_of(visible, '?');
    if mark < visible.len() {
        visible.skip(mark + 1)
    } else {
        Seq::empty()
    }
}

/// True when `pair` is a parameter called `name`.
pub open spec fn is_named(pair: Seq<char>, name: Seq<char>) -> bool {
    &&& pair.len() > name.len()
    &&& pair.take(name.len() as int) == name
    &&& pair[name.len() as int] == '='
}

/// The value of the first parameter called `name` in a query whose
/// parameters are separated by `&`, or `None` when no parameter has that name.
pub open spec fn query_value(query: Seq<char>, name: Seq<char>) -> Option<Seq<char>>
    decreases query.len(),
{
    let end = first_index_of(query, '&');
    let pair = query.take(end);
    if is_named(pair, name) {
        Some(pair.skip(name.len() as int + 1))
    } else if 0 <= end < query.len() {
        query_value(query.skip(end + 1), name)
    } else {
        None
    }
}

/// A text without `mark`, followed by anything, has its first `mark` where
/// the continuation has it.
pub proof fn lemma_first_index_after(head: Seq<char>, tail: Seq<char>, mark: char)
    requires
        lacks(head, mark),
    ensures
        first_index_of(head + tail, mark) == head.len() + first_index_of(tail, mark),
    decreases head.len(),
{
    if head.len() > 0 {
        assert((head + tail).skip(1) =~= head.skip(1) + tail);
        assert(lacks(head.skip(1), mark));
        lemma_first_index_after(head.skip(1), tail, mark);
    }
}

/// A text without `mark` has no first `mark`.
pub proof fn lemma_first_index_absent(text: Seq<char>, mark: char)
    requires
        lacks(text, mark),
    ensures
        first_index_of(text, mark) == text.len(),
{
    lemma_first_index_after(text, Seq::empty(), mark);
}

/// Joining two texts without `mark` gives a text without `mark`.
pub proof fn lemma_lacks_concat(left: Seq<char>, right: Seq<char>, mark: char)
    requires
        lacks(left, mark),
        lacks(right, mark),
    ensures
        lacks(left + right, mark),
{
}

/// A written parameter is free of `mark` when its name and value are and
/// `mark` is not the `=` between them.
pub proof fn lemma_parameter_lacks(name: Seq<char>, value: Seq<char>, mark: char)
    requires
        lacks(name, mark),
        lacks(value, mark),
        mark != '=',
    ensures
        lacks(parameter(name, value), mark),
{
    lemma_lacks_concat(name, seq!['='], mark);
    lemma_lacks_concat(name + seq!['='], value, mark);
}

/// A parameter written under one name is read under another name only when
/// the two names are the same.
pub proof fn lemma_parameter_is_named(name: Seq<char>, value: Seq<char>, wanted: Seq<char>)
    requires
        lacks(name, '='),
        lacks(wanted, '='),
    ensures
        is_named(parameter(name, value), wanted) <==> name == wanted,
        parameter(name, value).skip(name.len() as int + 1) == value,
{
    let pair = parameter(name, value);
    if name == wanted {
        assert(pair.take(name.len() as int) =~= name);
    }
    if is_named(pair, wanted) {
        if wanted.len() > name.len() {
            assert(wanted[name.len() as int] == '=');
        } else if wanted.len() == name.len() {
            assert(pair.take(name.len() as int) =~= name);
        }
    }
}

/// A reader of a query that starts with a parameter and `&` takes that
/// parameter if it has the wanted name and reads on behind the `&` otherwise.
pub proof fn lemma_query_value_first(
    name: Seq<char>,
    value: Seq<char>,
    rest: Seq<char>,
    wanted: Seq<char>,
)
    requires
        lacks(name, '='),
        lacks(name, '&'),
        lacks(value, '&'),
        lacks(wanted, '='),
    ensures
        query_value(parameter(name, value) + seq!['&'] + rest, wanted) == if name == wanted {
            Some(value)
        } else {
            query_value(rest, wanted)
        },
{
    let pair = parameter(name, value);
    let query = pair + seq!['&'] + rest;
    lemma_parameter_lacks(name, value, '&');
    lemma_first_index_after(pair, seq!['&'] + rest, '&');
    assert(pair + (seq!['&'] + rest) =~= query);
    assert(query.take(pair.len() as int) =~= pair);
    assert(query.skip(pair.len() as int + 1) =~= rest);
    lemma_parameter_is_named(name, value, wanted);
}

/// A reader of a query that is one parameter takes it if it has the wanted
/// name and finds nothing otherwise.
pub proof fn lemma_query_value_last(name: Seq<char>, value: Seq<char>, wanted: Seq<char>)
    requires
        lacks(name, '='),
        lacks(name, '&'),
        lacks(value, '&'),
        lacks(wanted, '='),
    ensures
        query_value(parameter(name, value), wanted) == if name == wanted {
            Some(value)
        } else {
            None
        },
{
    let pair = parameter(name, value);
    lemma_parameter_lacks(name, value, '&');
    lemma_first_index_absent(pair, '&');
    assert(pair.take(pair.len() as int) =~= pair);
    lemma_parameter_is_named(name, value, wanted);
}

/// The query of a URL made of a path without `?` or `#`, a `?`, and a query
/// without `#` is that query.
pub proof fn lemma_url_query(path: Seq<char>, query: Seq<char>)
    requires
        lacks(path, '?'),
        lacks(path, '#'),
        lacks(query, '#'),
    ensures
        url_query(path + seq!['?'] + query) == query,
{
    let url = path + seq!['?'] + query;
    lemma_lacks_concat(path, seq!['?'], '#');
    lemma_lacks_concat(path + seq!['?'], query, '#');
    lemma_first_index_absent(url, '#');
    assert(url.take(url.len() as int) =~= url);
    lemma_first_index_after(path, seq!['?'] + query, '?');
    assert(path + (seq!['?'] + query) =~= url);
}

} // verus!
