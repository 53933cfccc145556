//! Early fragment-scanning pass kept alongside the prefixed one: the same
//! line scan, but fragments carry only their id, without a source file.

use vstd::prelude::*;

use crate::fragment::spec_fragment_ids;
use crate::fragment::spec_lines;
use crate::strutil;

verus! {

/// A fragment declaration, known by its id alone.
#[derive(Debug, PartialEq)]
pub struct Fragment {
    pub id: String,
}

/// A template document with its fragments.
#[derive(Debug, PartialEq)]
pub struct Document {
    pub path: String,
    pub id: String,
    pub fragments: Vec<Fragment>,
}

/// Every fragment declared in `content`, unprefixed.
pub fn scan_fragments(content: String) -> (r: Vec<Fragment>)
    ensures
        r@.map_values(|f: Fragment| f.id@) == spec_fragment_ids(spec_lines(content@)),
{
    let ls = crate::fragment::lines(content.as_str());
    let ghost all = spec_lines(content@);
    let mut out: Vec<Fragment> = Vec::new();
    let mut i: usize = 0;
    proof {
        assert(all.skip(0) =~= all);
        assert(out@.map_values(|f: Fragment| f.id@) =~= Seq::<Seq<char>>::empty());
    }
    while i < ls.len()
        invariant
            ls@.map_values(|l: String| l@) == all,
            0 <= i <= ls@.len(),
            spec_fragment_ids(all) == out@.map_values(|f: Fragment| f.id@) + spec_fragment_ids(
                all.skip(i as int),
            ),
        decreases ls@.len() - i,
    {
        let line = &ls[i];
        proof {
            assert(all.skip(i as int)[0] == line@);
            assert(all.skip(i as int).drop_first() =~= all.skip(i as int + 1));
        }
        let t = strutil::trim(line.as_str());
        match strutil::split_once_str(t.as_str(), "{#fragment") {
            Some((_head, rest)) => {
                match strutil::split_once_str(rest.as_str(), "id=") {
                    Some((_mid, after)) => {
                        let id = match strutil::split_once_str(after.as_str(), "}") {
                            Some((value, _tail)) => value,
                            None => after,
                        };
                        let ghost prev = out@;
                        let f = Fragment { id };
                        out.push(f);
                        proof {
                            assert(out@.map_values(|f: Fragment| f.id@) =~= prev.map_values(
                                |f: Fragment| f.id@,
                            ) + seq![f.id@]);
                            assert((prev.map_values(|f: Fragment| f.id@) + seq![f.id@])
                                + spec_fragment_ids(all.skip(i as int + 1)) =~= prev.map_values(
                                |f: Fragment| f.id@,
                            ) + (seq![f.id@] + spec_fragment_ids(all.skip(i as int + 1))));
                        }
                    },
                    None => {},
                }
            },
            None => {},
        }
        i = i + 1;
    }
    proof {
        assert(all.skip(ls@.len() as int) =~= Seq::<Seq<char>>::empty());
        assert(out@.map_values(|f: Fragment| f.id@) + Seq::<Seq<char>>::empty() =~= out@.map_values(
            |f: Fragment| f.id@,
        ));
    }
    out
}

} // verus!
