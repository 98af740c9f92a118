use vstd::prelude::*;
use vstd::string::*;
use crate::calendar::{CalendarDate, iso_text, lemma_iso_text_injective};

verus! {

/// `name` appended to the directory `dir`, as a path: an absolute `name`
/// stands alone, and a separator is put between the two where `dir` does not
/// end with one.
pub open spec fn join_path(dir: Seq<char>, name: Seq<char>) -> Seq<char> {
    if name.len() > 0 && name[0] == '/' {
        name
    } else if dir.len() == 0 || dir.last() == '/' {
        dir + name
    } else {
        dir + seq!['/'] + name
    }
}

/// The name of the file that caches the content of day `d`.
pub open spec fn comic_file_name(d: CalendarDate) -> Seq<char> {
    seq!['k', 'a', 'e', 'n', 'g', 'u', 'r', 'u', '_', 'k', 'a', 'e', 'n', 'g', 'u', 'r', 'u', '_']
        + iso_text(d) + seq!['.', 'w', 'e', 'b', 'p', '.', 'w', 'e', 'b', 'p']
}

/// Where the service keeps its files: the subscriber set and the content of
/// each day, all in one directory.
#[derive(Clone, Debug)]
pub struct Persistence {
    pub path: String,
    pub chat_ids_file: String,
}

impl Persistence {
    /// The path of the file that holds the subscriber set.
    pub open spec fn chat_ids_location(&self) -> Seq<char> {
        join_path(self.path@, self.chat_ids_file@)
    }

    /// The path of the file that caches the content of day `d`.
    pub open spec fn comic_location(&self, d: CalendarDate) -> Seq<char> {
        join_path(self.path@, comic_file_name(d))
    }

    /// The path of the file that holds the subscriber set.
    pub fn chat_ids_path(&self) -> (r: String)
        ensures
            r@ == self.chat_ids_location(),
    {
        join(&self.path, self.chat_ids_file.as_str())
    }

    /// The path of the file that caches the content of day `d`.
    pub fn comic_path(&self, d: &CalendarDate) -> (r: String)
        requires
            d.valid(),
        ensures
            r@ == self.comic_location(*d),
    {
        let mut name = String::from_str("kaenguru_kaenguru_");
        let iso = d.iso();
        name.append(iso.as_str());
        name.append(".webp.webp");
        proof {
            reveal_strlit("kaenguru_kaenguru_");
            reveal_strlit(".webp.webp");
            assert(name@ =~= comic_file_name(*d));
        }
        join(&self.path, name.as_str())
    }
}

/// `name` appended to the directory `dir`.
fn join(dir: &String, name: &str) -> (r: String)
    ensures
        r@ == join_path(dir@, name@),
{
    let n = name.unicode_len();
    if n > 0 && name.get_char(0) == '/' {
        return String::from_str(name);
    }
    let d = dir.as_str().unicode_len();
    let mut r = dir.clone();
    if d > 0 && dir.as_str().get_char(d - 1) != '/' {
        r.append("/");
        proof {
            reveal_strlit("/");
        }
    }
    r.append(name);
    r
}

/// The content of two different days is cached in two different files.
pub proof fn lemma_comic_paths_distinct(p: Persistence, a: CalendarDate, b: CalendarDate)
    requires
        a.valid(),
        b.valid(),
        a != b,
    ensures
        p.comic_location(a) != p.comic_location(b),
{
    let na = comic_file_name(a);
    let nb = comic_file_name(b);
    let dir = p.path@;
    let sep: Seq<char> = if dir.len() == 0 || dir.last() == '/' {
        Seq::empty()
    } else {
        seq!['/']
    };
    assert(na[0] == 'k' && nb[0] == 'k');
    assert(p.comic_location(a) =~= dir + sep + na);
    assert(p.comic_location(b) =~= dir + sep + nb);
    if p.comic_location(a) == p.comic_location(b) {
        let k: int = (dir.len() + sep.len()) as int;
        assert(na =~= (dir + sep + na).subrange(k, k + na.len() as int));
        assert(nb =~= (dir + sep + nb).subrange(k, k + nb.len() as int));
        assert(na.len() == nb.len());
        assert(na == nb);
        assert(iso_text(a) =~= na.subrange(18, 28));
        assert(iso_text(b) =~= nb.subrange(18, 28));
        lemma_iso_text_injective(a, b);
    }
}

/// The remote origin of the daily content: a base address and the name of
/// the file under each day's directory.
#[derive(Clone, Debug)]
pub struct Download {
    pub base_url: String,
    pub filename: String,
}

impl Download {
    /// The address of the content of day `d`:
    /// `{base_url}/{YYYY-MM}/{DD}/{filename}`.
    pub open spec fn comic_address(&self, d: CalendarDate) -> Seq<char> {
        let iso = iso_text(d);
        self.base_url@ + seq!['/'] + iso.subrange(0, 7) + seq!['/'] + iso.subrange(8, 10) + seq![
            '/',
        ] + self.filename@
    }

    /// The address of the content of day `d`.
    pub fn comic_url(&self, d: &CalendarDate) -> (r: String)
        requires
            d.valid(),
        ensures
            r@ == self.comic_address(*d),
    {
        let iso = d.iso();
        let mut url = self.base_url.clone();
        url.append("/");
        url.append(iso.as_str().substring_char(0, 7));
        url.append("/");
        url.append(iso.as_str().substring_char(8, 10));
        url.append("/");
        url.append(self.filename.as_str());
        proof {
            reveal_strlit("/");
            assert(url@ =~= self.comic_address(*d));
        }
        url
    }
}

} // verus!
