//! Finding data files along a search path.

use vstd::prelude::*;
use vstd::string::*;

verus! {

/// The texts found along a search path, in search order.
pub open spec fn found_texts(found: Seq<(String, Option<String>)>) -> Seq<Seq<char>>
    decreases found.len(),
{
    if found.len() == 0 {
        seq![]
    } else {
        let rest = found_texts(found.drop_last());
        match found.last().1 {
            Some(text) => rest.push(text@),
            None => rest,
        }
    }
}

/// The texts that a search yields: those found along the path, in order,
/// then the bundled copy, if there is one.
pub open spec fn search_results(found: Seq<(String, Option<String>)>, bundled: Option<Seq<char>>) -> Seq<
    Seq<char>,
> {
    match bundled {
        Some(text) => found_texts(found).push(text),
        None => found_texts(found),
    }
}

/// The search path as listed in an error message: each directory on a line
/// of its own, indented by two spaces.
pub open spec fn search_listing(found: Seq<(String, Option<String>)>) -> Seq<char>
    decreases found.len(),
{
    if found.len() == 0 {
        seq![]
    } else {
        search_listing(found.drop_last()) + "\n  "@ + found.last().0@
    }
}

/// The message given when a file is found neither along the search path nor
/// bundled.
pub open spec fn not_found_message(filename: Seq<char>, found: Seq<(String, Option<String>)>) -> Seq<
    char,
> {
    "Could not find "@ + filename + ", and rink was not built with one bundled. Search path:"@
        + search_listing(found)
}

/// A copy found along the search path comes before the bundled copy, so the
/// first text a search yields is the first one found along the path whenever
/// there is one, and the bundled copy only otherwise.
pub proof fn lemma_found_copy_shadows_bundled(
    found: Seq<(String, Option<String>)>,
    bundled: Option<Seq<char>>,
)
    requires
        search_results(found, bundled).len() > 0,
    ensures
        found_texts(found).len() > 0 ==> search_results(found, bundled)[0] == found_texts(found)[0],
        found_texts(found).len() == 0 ==> bundled is Some && search_results(found, bundled)[0]
            == bundled->0,
{
}

/// The directories searched for data files, in order: the working
/// directory, then the configuration directory if there is one, then the
/// directory given at build time if there is one.
pub fn search_path<P>(current: P, config_dir: Option<P>, build_dir: Option<P>) -> (path: Vec<P>)
    ensures
        path@ == seq![current] + match config_dir {
            Some(d) => seq![d],
            None => Seq::<P>::empty(),
        } + match build_dir {
            Some(d) => seq![d],
            None => Seq::<P>::empty(),
        },
{
    let ghost c = current;
    let ghost cd = config_dir;
    let ghost bd = build_dir;
    let mut path = Vec::new();
    path.push(current);
    match config_dir {
        Some(d) => path.push(d),
        None => {},
    }
    match build_dir {
        Some(d) => path.push(d),
        None => {},
    }
    proof {
        assert(path@ =~= seq![c] + match cd {
            Some(d) => seq![d],
            None => Seq::<P>::empty(),
        } + match bd {
            Some(d) => seq![d],
            None => Seq::<P>::empty(),
        });
    }
    path
}

/// The texts of `filename` found along a search path, followed by the
/// bundled copy. `found` holds, for each directory of the path in order, its
/// display name and the text read there, if any. Fails with a message that
/// lists the search path when the file is found nowhere.
pub fn read_from_search_path(
    filename: &str,
    found: Vec<(String, Option<String>)>,
    bundled: Option<&str>,
) -> (r: Result<Vec<String>, String>)
    ensures
        r is Err <==> search_results(
            found@,
            match bundled {
                Some(b) => Some(b@),
                None => None,
            },
        ).len() == 0,
        r matches Ok(texts) ==> texts@.map_values(|t: String| t@) == search_results(
            found@,
            match bundled {
                Some(b) => Some(b@),
                None => None,
            },
        ),
        r matches Err(message) ==> message@ == not_found_message(filename@, found@),
{
    let mut texts: Vec<String> = Vec::new();
    let mut i: usize = 0;
    while i < found.len()
        invariant
            i <= found@.len(),
            texts@.map_values(|t: String| t@) == found_texts(found@.take(i as int)),
        decreases found@.len() - i,
    {
        proof {
            assert(found@.take(i + 1).drop_last() =~= found@.take(i as int));
        }
        match &found[i].1 {
            Some(text) => {
                texts.push(text.clone());
                proof {
                    assert(texts@.map_values(|t: String| t@) =~= found_texts(found@.take(i + 1)));
                }
            },
            None => {},
        }
        i = i + 1;
    }
    proof {
        assert(found@.take(found@.len() as int) =~= found@);
    }
    match bundled {
        Some(b) => {
            let mut t = String::new();
            t.append(b);
            texts.push(t);
            proof {
                assert(texts@.map_values(|t: String| t@) =~= found_texts(found@).push(b@));
            }
        },
        None => {},
    }
    if texts.len() == 0 {
        let mut message = String::new();
        message.append("Could not find ");
        message.append(filename);
        message.append(", and rink was not built with one bundled. Search path:");
        let ghost head = message@;
        let mut j: usize = 0;
        while j < found.len()
            invariant
                j <= found@.len(),
                message@ == head + search_listing(found@.take(j as int)),
            decreases found@.len() - j,
        {
            proof {
                assert(found@.take(j + 1).drop_last() =~= found@.take(j as int));
            }
            message.append("\n  ");
            message.append(found[j].0.as_str());
            proof {
                assert(message@ =~= head + search_listing(found@.take(j + 1)));
            }
            j = j + 1;
        }
        proof {
            assert(found@.take(found@.len() as int) =~= found@);
            assert(message@ =~= not_found_message(filename@, found@));
        }
        Err(message)
    } else {
        Ok(texts)
    }
}

/// The first text that a search yields, as `read_from_search_path` finds it.
pub fn first_from_search_path(
    filename: &str,
    found: Vec<(String, Option<String>)>,
    bundled: Option<&str>,
) -> (r: Result<String, String>)
    ensures
        r is Err <==> search_results(
            found@,
            match bundled {
                Some(b) => Some(b@),
                None => None,
            },
        ).len() == 0,
        r matches Ok(text) ==> text@ == search_results(
            found@,
            match bundled {
                Some(b) => Some(b@),
                None => None,
            },
        )[0],
        r matches Err(message) ==> message@ == not_found_message(filename@, found@),
{
    match read_from_search_path(filename, found, bundled) {
        Ok(texts) => {
            proof {
                assert(texts@.map_values(|t: String| t@)[0] == texts@[0]@);
            }
            let mut texts = texts;
            Ok(texts.swap_remove(0))
        },
        Err(message) => Err(message),
    }
}

} // verus!

verus! {

/// The texts found along a path made of two parts are those found along the
/// first part, then those found along the second.
pub proof fn lemma_found_texts_concat(
    first: Seq<(String, Option<String>)>,
    second: Seq<(String, Option<String>)>,
)
    ensures
        found_texts(first + second) == found_texts(first) + found_texts(second),
    decreases second.len(),
{
    if second.len() == 0 {
        assert(first + second =~= first);
        assert(found_texts(first) + found_texts(second) =~= found_texts(first));
    } else {
        let rest = second.drop_last();
        lemma_found_texts_concat(first, rest);
        assert((first + second).drop_last() =~= first + rest);
        assert((first + second).last() == second.last());
        match second.last().1 {
            Some(text) => {
                assert(found_texts(first) + found_texts(second) =~= (found_texts(first)
                    + found_texts(rest)).push(text@));
            },
            None => {},
        }
    }
}

/// A directory that holds the file yields its text; one that does not
/// yields nothing. With `lemma_found_texts_concat`, this says that the texts
/// found are exactly the texts read, in search order.
pub proof fn lemma_found_texts_single(dir: String, text: String)
    ensures
        found_texts(seq![(dir, Some(text))]) == seq![text@],
        found_texts(seq![(dir, None::<String>)]) == Seq::<Seq<char>>::empty(),
{
    let empty = Seq::<(String, Option<String>)>::empty();
    assert(found_texts(empty) == Seq::<Seq<char>>::empty());
    let with = seq![(dir, Some(text))];
    assert(with.drop_last() =~= empty);
    assert(with.last() == (dir, Some(text)));
    assert(found_texts(with) == found_texts(with.drop_last()).push(text@));
    assert(Seq::<Seq<char>>::empty().push(text@) =~= seq![text@]);
    let without = seq![(dir, None::<String>)];
    assert(without.drop_last() =~= empty);
    assert(found_texts(without) == found_texts(without.drop_last()));
}

/// The first directory along the path that holds the file decides what a
/// search yields first, whatever is bundled and whatever later directories
/// hold; and the search then cannot fail.
pub proof fn lemma_first_directory_with_file_wins(
    found: Seq<(String, Option<String>)>,
    bundled: Option<Seq<char>>,
    i: int,
)
    requires
        0 <= i < found.len(),
        found[i].1 is Some,
        forall|j: int| 0 <= j < i ==> found[j].1 is None,
    ensures
        search_results(found, bundled).len() > 0,
        search_results(found, bundled)[0] == found[i].1->0@,
{
    let before = found.take(i);
    let at = seq![found[i]];
    let after = found.skip(i + 1);
    assert(found =~= before + at + after);
    assert(found_texts(before).len() == 0) by {
        lemma_no_texts_without_files(before);
    }
    lemma_found_texts_concat(before + at, after);
    lemma_found_texts_concat(before, at);
    lemma_found_texts_single(found[i].0, found[i].1->0);
    assert(found_texts(found)[0] == found[i].1->0@);
}

/// A path none of whose directories holds the file yields no text.
pub proof fn lemma_no_texts_without_files(found: Seq<(String, Option<String>)>)
    requires
        forall|j: int| 0 <= j < found.len() ==> found[j].1 is None,
    ensures
        found_texts(found).len() == 0,
    decreases found.len(),
{
    if found.len() > 0 {
        lemma_no_texts_without_files(found.drop_last());
    }
}

} // verus!
