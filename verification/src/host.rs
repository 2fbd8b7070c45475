//! The host system: what its tools are called, and how its paths are built.

use crate::text::{cat2, cat3, push_text, same, slice_text, to_chars, views};
use vstd::prelude::*;

verus! {

/// The system that the suite runs on.
#[derive(Debug, Clone, Copy, PartialEq, Eq, Structural)]
pub enum Host {
    Mac,
    Linux,
    Windows,
}

impl Host {
    /// What a program called `name` is called in the file system.
    pub open spec fn exe_name(self, name: Seq<char>) -> Seq<char> {
        if self == Host::Windows {
            name + ".exe"@
        } else {
            name
        }
    }

    /// What a script called `name` is called in the file system.
    pub open spec fn bat_name(self, name: Seq<char>) -> Seq<char> {
        if self == Host::Windows {
            name + ".bat"@
        } else {
            name
        }
    }

    /// What stands between the directories of a search path.
    pub open spec fn list_separator(self) -> Seq<char> {
        if self == Host::Windows {
            ";"@
        } else {
            ":"@
        }
    }

    /// `c` stands between the parts of a path.
    pub open spec fn separates(self, c: char) -> bool {
        c == '/' || (self == Host::Windows && c == '\\')
    }

    /// `path` is one that the system takes as it stands: a slash in it is a
    /// character like any.
    pub open spec fn is_verbatim(self, path: Seq<char>) -> bool {
        self == Host::Windows && path.len() >= 4 && path[0] == '\\' && path[1] == '\\' && path[2]
            == '?' && path[3] == '\\'
    }

    /// `c` ends a part of a path.
    pub open spec fn ends_part(self, verbatim: bool, c: char) -> bool {
        if verbatim {
            c == '\\'
        } else {
            self.separates(c)
        }
    }

    /// How many characters `s` has before the first that ends a part.
    pub open spec fn part_len(self, verbatim: bool, s: Seq<char>) -> int
        decreases s.len(),
    {
        if s.len() == 0 || self.ends_part(verbatim, s[0]) {
            0
        } else {
            1 + self.part_len(verbatim, s.skip(1))
        }
    }

    /// How many characters the second part of `s` has.
    pub open spec fn second_len(self, verbatim: bool, s: Seq<char>) -> int {
        let n = self.part_len(verbatim, s);
        if n < s.len() {
            self.part_len(verbatim, s.skip(n + 1))
        } else {
            0
        }
    }

    /// `path` begins with the letter of a drive.
    pub open spec fn has_drive(self, path: Seq<char>) -> bool {
        self == Host::Windows && path.len() >= 2 && path[1] == ':' && ('a' <= path[0] <= 'z' || 'A'
            <= path[0] <= 'Z')
    }

    /// How many characters of `path` say where its root lies: on a drive, on
    /// what a server shares, or on a device.
    pub open spec fn prefix_len(self, path: Seq<char>) -> int {
        if self != Host::Windows {
            0
        } else if self.is_verbatim(path) {
            let rest = path.skip(4);
            if rest.len() >= 4 && rest[0] == 'U' && rest[1] == 'N' && rest[2] == 'C'
                && self.separates(rest[3]) {
                let server = self.part_len(true, rest.skip(4));
                let share = self.second_len(true, rest.skip(4));
                8 + server + if share > 0 {
                    1 + share
                } else {
                    0
                }
            } else if self.has_drive(rest) && (rest.len() == 2 || self.separates(rest[2])) {
                6
            } else {
                4 + self.part_len(true, rest)
            }
        } else if path.len() >= 2 && self.separates(path[0]) && self.separates(path[1]) {
            if path.len() >= 4 && path[2] == '.' && self.separates(path[3]) {
                4 + self.part_len(false, path.skip(4))
            } else {
                let server = self.part_len(false, path.skip(2));
                let share = self.second_len(false, path.skip(2));
                if server > 0 && share > 0 {
                    3 + server + share
                } else {
                    0
                }
            }
        } else if self.has_drive(path) {
            2
        } else {
            0
        }
    }

    /// `path` begins with a separator.
    pub open spec fn is_rooted(self, path: Seq<char>) -> bool {
        path.len() > 0 && self.separates(path[0])
    }

    /// `base` needs no separator before what is put behind it: it is empty, it
    /// ends in one, or it names a drive and nothing on it.
    pub open spec fn open_ended(self, base: Seq<char>) -> bool {
        ||| base.len() == 0
        ||| self.separates(base.last())
        ||| self.has_drive(base) && base.len() == 2
    }

    /// The parts of `s`, without the separators between them.
    pub open spec fn parts(self, verbatim: bool, s: Seq<char>) -> Seq<Seq<char>>
        decreases s.len(),
    {
        if s.len() == 0 {
            seq![]
        } else if self.ends_part(verbatim, s[0]) {
            self.parts(verbatim, s.skip(1))
        } else {
            let n = self.part_len(verbatim, s);
            if 0 < n <= s.len() {
                seq![s.take(n)] + self.parts(verbatim, s.skip(n))
            } else {
                seq![]
            }
        }
    }

    /// The path of `rel` under `base`. Where `rel` says where its root lies, it
    /// stands for itself; where it begins with a separator, it stands
    /// under the root of `base`. What is put behind a path that is taken as it
    /// stands is written so that it may be.
    pub open spec fn path(self, base: Seq<char>, rel: Seq<char>) -> Seq<char> {
        if self.prefix_len(rel) > 0 {
            rel
        } else if self.is_verbatim(base) && rel.len() > 0 {
            self.verbatim_path(base, rel)
        } else if self.is_rooted(rel) {
            base.take(self.prefix_len(base)) + rel
        } else if self.open_ended(base) {
            base + rel
        } else if self == Host::Windows {
            base + "\\"@ + rel
        } else {
            base + "/"@ + rel
        }
    }

    /// The path of `rel` under the path `base` that is taken as it stands. What
    /// `rel` says of the directory itself, and of the one above it, is followed.
    pub open spec fn verbatim_path(self, base: Seq<char>, rel: Seq<char>) -> Seq<char> {
        let p = self.prefix_len(base);
        let body = base.skip(p);
        let all = settled(
            if self.is_rooted(rel) {
                seq![]
            } else {
                self.parts(true, body)
            },
            self.parts(false, rel),
        );
        let rooted = self.is_rooted(rel) || (body.len() > 0 && body[0] == '\\');
        base.take(p) + if rooted && all.len() == 0 {
            seq!['\\']
        } else {
            chained(all)
        }
    }

    /// `s` without the separators, and the parts that name the directory itself,
    /// at its end.
    pub open spec fn without_tail(self, verbatim: bool, s: Seq<char>) -> Seq<char>
        decreases s.len(),
    {
        if s.len() > 0 && self.ends_part(verbatim, s.last()) {
            self.without_tail(verbatim, s.drop_last())
        } else if !verbatim && s.len() > 1 && s.last() == '.' && self.separates(s[s.len() - 2]) {
            self.without_tail(verbatim, s.drop_last())
        } else {
            s
        }
    }

    /// How many characters stand behind the last separator of `s`.
    pub open spec fn last_part_len(self, verbatim: bool, s: Seq<char>) -> int
        decreases s.len(),
    {
        if s.len() == 0 || self.ends_part(verbatim, s.last()) {
            0
        } else {
            1 + self.last_part_len(verbatim, s.drop_last())
        }
    }

    /// The last part of `path`, where it names a file or a directory.
    pub open spec fn last_part(self, path: Seq<char>) -> Option<Seq<char>> {
        let v = self.is_verbatim(path);
        let p = self.without_tail(v, path.skip(self.prefix_len(path)));
        let name = p.skip(p.len() - self.last_part_len(v, p));
        if name.len() == 0 || name =~= seq!['.'] || name =~= seq!['.', '.'] {
            None
        } else {
            Some(name)
        }
    }

    /// `s` without what stands at its end and names nothing further; but where
    /// it is a root, one separator is left.
    pub open spec fn plain_dir(self, verbatim: bool, s: Seq<char>) -> Seq<char> {
        let dir = self.without_tail(verbatim, s);
        if s.len() > 0 && dir.len() == 0 {
            s.take(1)
        } else {
            dir
        }
    }

    /// `path` without the separators at its end.
    pub open spec fn bare(self, path: Seq<char>) -> Seq<char> {
        let p = self.prefix_len(path);
        path.take(p) + self.plain_dir(self.is_verbatim(path), path.skip(p))
    }

    /// The directory that holds what `path` names.
    pub open spec fn parent(self, path: Seq<char>) -> Seq<char> {
        let v = self.is_verbatim(path);
        let p = self.prefix_len(path);
        let s = self.without_tail(v, path.skip(p));
        path.take(p) + self.plain_dir(v, s.take(s.len() - self.last_part_len(v, s)))
    }

    /// `path` with its last part replaced by `name`, or with `name` behind it
    /// where it has no last part.
    pub open spec fn sibling(self, path: Seq<char>, name: Seq<char>) -> Seq<char> {
        if self.last_part(path) is Some {
            self.path(self.parent(path), name)
        } else {
            self.path(path, name)
        }
    }

    /// What a program called `name` is called in the file system.
    pub fn exe(self, name: &str) -> (r: String)
        ensures
            r@ == self.exe_name(name@),
    {
        if self == Host::Windows {
            cat2(name, ".exe")
        } else {
            name.to_owned()
        }
    }

    /// What a script called `name` is called in the file system.
    pub fn bat(self, name: &str) -> (r: String)
        ensures
            r@ == self.bat_name(name@),
    {
        if self == Host::Windows {
            cat2(name, ".bat")
        } else {
            name.to_owned()
        }
    }

    /// `c` stands between the parts of a path.
    pub fn is_separator(self, c: char) -> (r: bool)
        ensures
            r == self.separates(c),
    {
        c == '/' || (self == Host::Windows && c == '\\')
    }

    /// The characters are those of a path that is taken as they stand.
    fn verbatim(self, v: &Vec<char>) -> (r: bool)
        ensures
            r == self.is_verbatim(v@),
    {
        self == Host::Windows && v.len() >= 4 && v[0] == '\\' && v[1] == '\\' && v[2] == '?' && v[3]
            == '\\'
    }

    fn is_end(self, verbatim: bool, c: char) -> (r: bool)
        ensures
            r == self.ends_part(verbatim, c),
    {
        if verbatim {
            c == '\\'
        } else {
            self.is_separator(c)
        }
    }

    /// Where the part ends that begins at `from`.
    fn part_end(self, verbatim: bool, v: &Vec<char>, from: usize) -> (end: usize)
        requires
            from <= v.len(),
        ensures
            from <= end <= v.len(),
            end == from + self.part_len(verbatim, v@.skip(from as int)),
    {
        let mut i: usize = from;
        while i < v.len() && !self.is_end(verbatim, v[i])
            invariant
                from <= i <= v.len(),
                self.part_len(verbatim, v@.skip(from as int)) == i - from + self.part_len(
                    verbatim,
                    v@.skip(i as int),
                ),
            decreases v.len() - i,
        {
            assert(v@.skip(i as int).skip(1) =~= v@.skip(i + 1));
            i = i + 1;
        }
        i
    }

    /// How many characters the part has behind the one that begins at `from`.
    fn second(self, verbatim: bool, v: &Vec<char>, from: usize) -> (n: usize)
        requires
            from <= v.len(),
        ensures
            n == self.second_len(verbatim, v@.skip(from as int)),
    {
        let end: usize = self.part_end(verbatim, v, from);
        if end < v.len() {
            assert(v@.skip(from as int).skip(end - from + 1) =~= v@.skip(end + 1));
            self.part_end(verbatim, v, end + 1) - (end + 1)
        } else {
            0
        }
    }

    /// The characters from `from` on begin with the letter of a drive.
    fn drive_at(self, v: &Vec<char>, from: usize) -> (r: bool)
        requires
            from <= v.len(),
        ensures
            r == self.has_drive(v@.skip(from as int)),
    {
        self == Host::Windows && v.len() - from >= 2 && v[from + 1] == ':' && (('a' <= v[from]
            && v[from] <= 'z') || ('A' <= v[from] && v[from] <= 'Z'))
    }

    proof fn prefix_bounds(self, path: Seq<char>)
        ensures
            0 <= self.prefix_len(path) <= path.len(),
    {
        self.part_bounds(true, path.skip(4));
        self.part_bounds(true, path.skip(4).skip(4));
        self.part_bounds(false, path.skip(4));
        self.part_bounds(false, path.skip(2));
    }

    proof fn part_bounds(self, verbatim: bool, s: Seq<char>)
        ensures
            0 <= self.part_len(verbatim, s) <= s.len(),
            0 <= self.second_len(verbatim, s),
            self.second_len(verbatim, s) > 0 ==> self.part_len(verbatim, s) + 1 + self.second_len(
                verbatim,
                s,
            ) <= s.len(),
        decreases s.len(),
    {
        if s.len() > 0 {
            self.part_bounds(verbatim, s.skip(1));
            let n = self.part_len(verbatim, s);
            if n < s.len() {
                self.part_bounds(verbatim, s.skip(n + 1));
            }
        }
    }

    /// How many of the characters say where the root lies.
    fn prefix(self, v: &Vec<char>) -> (n: usize)
        ensures
            n == self.prefix_len(v@),
            n <= v.len(),
    {
        proof {
            self.prefix_bounds(v@);
        }
        if self != Host::Windows {
            return 0;
        }
        if self.verbatim(v) {
            assert(v@.len() >= 8 ==> v@.skip(4).skip(4) =~= v@.skip(8));
            if v.len() >= 8 && v[4] == 'U' && v[5] == 'N' && v[6] == 'C' && self.is_separator(v[7]) {
                let server: usize = self.part_end(true, v, 8);
                let share: usize = self.second(true, v, 8);
                return if share > 0 {
                    server + 1 + share
                } else {
                    server
                };
            }
            if self.drive_at(v, 4) && (v.len() == 6 || self.is_separator(v[6])) {
                return 6;
            }
            return self.part_end(true, v, 4);
        }
        if v.len() >= 2 && self.is_separator(v[0]) && self.is_separator(v[1]) {
            if v.len() >= 4 && v[2] == '.' && self.is_separator(v[3]) {
                return self.part_end(false, v, 4);
            }
            let server: usize = self.part_end(false, v, 2);
            let share: usize = self.second(false, v, 2);
            return if server > 2 && share > 0 {
                server + 1 + share
            } else {
                0
            };
        }
        assert(v@.skip(0) =~= v@);
        if self.drive_at(v, 0) {
            2
        } else {
            0
        }
    }

    /// The parts of the characters from `from` on.
    fn split(self, verbatim: bool, v: &Vec<char>, from: usize) -> (r: Vec<String>)
        requires
            from <= v.len(),
        ensures
            views(r@) == self.parts(verbatim, v@.skip(from as int)),
    {
        let mut r: Vec<String> = Vec::new();
        let mut i: usize = from;
        let ghost all = self.parts(verbatim, v@.skip(from as int));
        assert(views(r@) + all =~= all);
        while i < v.len()
            invariant
                from <= i <= v.len(),
                all == views(r@) + self.parts(verbatim, v@.skip(i as int)),
            decreases v.len() - i,
        {
            if self.is_end(verbatim, v[i]) {
                assert(v@.skip(i as int).skip(1) =~= v@.skip(i + 1));
                i = i + 1;
            } else {
                let end: usize = self.part_end(verbatim, v, i);
                assert(v@.skip(i as int).skip(1) =~= v@.skip(i + 1));
                proof {
                    self.part_bounds(verbatim, v@.skip(i + 1));
                }
                assert(end > i);
                let ghost before = views(r@);
                let ghost one = v@.subrange(i as int, end as int);
                assert(v@.skip(i as int).take(end - i) =~= one);
                assert(v@.skip(i as int).skip(end - i) =~= v@.skip(end as int));
                push_text(&mut r, slice_text(v, i, end).as_str());
                assert(before + (seq![one] + self.parts(verbatim, v@.skip(end as int))) =~= views(
                    r@,
                ) + self.parts(verbatim, v@.skip(end as int)));
                i = end;
            }
        }
        assert(v@.skip(i as int) =~= Seq::<char>::empty());
        assert(views(r@) + Seq::<Seq<char>>::empty() =~= views(r@));
        r
    }

    /// The path of `rel` under the path `base` that is taken as it stands.
    fn join_verbatim(self, b: &Vec<char>, q: &Vec<char>) -> (r: String)
        ensures
            r@ == self.verbatim_path(b@, q@),
    {
        let p: usize = self.prefix(b);
        let from_root = q.len() > 0 && self.is_separator(q[0]);
        let start: Vec<String> = if from_root {
            let none: Vec<String> = Vec::new();
            assert(views(none@) =~= seq![]);
            none
        } else {
            self.split(true, b, p)
        };
        assert(q@.skip(0) =~= q@);
        let all = settle(start, &self.split(false, q, 0));
        let rooted = from_root || (p < b.len() && b[p] == '\\');
        let mut r = slice_text(b, 0, p);
        assert(b@.subrange(0, p as int) =~= b@.take(p as int));
        if rooted && all.len() == 0 {
            r.push('\\');
            assert(r@ =~= b@.take(p as int) + seq!['\\']);
        } else {
            chain(&mut r, &all);
        }
        assert(views(all@).len() == all@.len());
        r
    }

    /// The path of `rel` under `base`.
    pub fn join(self, base: &str, rel: &str) -> (r: String)
        ensures
            r@ == self.path(base@, rel@),
    {
        let b = to_chars(base);
        let q = to_chars(rel);
        assert(b@.skip(0) =~= b@);
        if self.prefix(&q) > 0 {
            rel.to_owned()
        } else if q.len() > 0 && self.verbatim(&b) {
            self.join_verbatim(&b, &q)
        } else if q.len() > 0 && self.is_separator(q[0]) {
            let p: usize = self.prefix(&b);
            assert(b@.subrange(0, p as int) =~= b@.take(p as int));
            cat2(slice_text(&b, 0, p).as_str(), rel)
        } else if b.len() == 0 || self.is_separator(b[b.len() - 1]) || (b.len() == 2
            && self.drive_at(&b, 0)) {
            cat2(base, rel)
        } else if self == Host::Windows {
            cat3(base, "\\", rel)
        } else {
            cat3(base, "/", rel)
        }
    }

    /// Where the characters `v[from..to]` end without the separators, and the
    /// parts that name the directory itself, at their end.
    fn tail_start(self, verbatim: bool, v: &Vec<char>, from: usize, to: usize) -> (end: usize)
        requires
            from <= to <= v.len(),
        ensures
            from <= end <= to,
            self.without_tail(verbatim, v@.subrange(from as int, to as int)) == v@.subrange(
                from as int,
                end as int,
            ),
    {
        let mut end: usize = to;
        while end > from && (self.is_end(verbatim, v[end - 1]) || (!verbatim && end - from > 1
            && v[end - 1] == '.' && self.is_separator(v[end - 2])))
            invariant
                from <= end <= to <= v.len(),
                self.without_tail(verbatim, v@.subrange(from as int, end as int))
                    == self.without_tail(verbatim, v@.subrange(from as int, to as int)),
            decreases end,
        {
            assert(v@.subrange(from as int, end as int).drop_last() =~= v@.subrange(
                from as int,
                end - 1,
            ));
            end = end - 1;
        }
        end
    }

    /// Where the characters `v[from..to]` end without what stands at their end
    /// and names nothing further.
    fn dir_end(self, verbatim: bool, v: &Vec<char>, from: usize, to: usize) -> (end: usize)
        requires
            from <= to <= v.len(),
        ensures
            from <= end <= to,
            self.plain_dir(verbatim, v@.subrange(from as int, to as int)) == v@.subrange(
                from as int,
                end as int,
            ),
    {
        let dir: usize = self.tail_start(verbatim, v, from, to);
        if to > from && dir == from {
            assert(v@.subrange(from as int, to as int).take(1) =~= v@.subrange(
                from as int,
                from + 1,
            ));
            from + 1
        } else {
            dir
        }
    }

    /// Where the last part of the characters `v[from..end]` begins.
    fn last_start(self, verbatim: bool, v: &Vec<char>, from: usize, end: usize) -> (start: usize)
        requires
            from <= end <= v.len(),
        ensures
            from <= start <= end,
            self.last_part_len(verbatim, v@.subrange(from as int, end as int)) == end - start,
    {
        let mut start: usize = end;
        while start > from && !self.is_end(verbatim, v[start - 1])
            invariant
                from <= start <= end <= v.len(),
                self.last_part_len(verbatim, v@.subrange(from as int, end as int)) == end - start
                    + self.last_part_len(verbatim, v@.subrange(from as int, start as int)),
            decreases start,
        {
            assert(v@.subrange(from as int, start as int).drop_last() =~= v@.subrange(
                from as int,
                start - 1,
            ));
            start = start - 1;
        }
        start
    }

    /// The last part of `path`, where it names a file or a directory.
    pub fn file_name(self, path: &str) -> (r: Option<String>)
        ensures
            match r {
                Some(name) => self.last_part(path@) == Some(name@),
                None => self.last_part(path@) is None,
            },
    {
        let v = to_chars(path);
        let verbatim = self.verbatim(&v);
        let p: usize = self.prefix(&v);
        assert(v@.subrange(p as int, v@.len() as int) =~= v@.skip(p as int));
        let end: usize = self.tail_start(verbatim, &v, p, v.len());
        let start: usize = self.last_start(verbatim, &v, p, end);
        let ghost s = v@.subrange(p as int, end as int);
        let ghost name = s.skip(start - p);
        assert(name =~= v@.subrange(start as int, end as int));
        let n: usize = end - start;
        assert(n >= 1 ==> name[0] == v@[start as int]);
        assert(n >= 2 ==> name[1] == v@[start + 1]);
        if n == 0 || (n == 1 && v[start] == '.') || (n == 2 && v[start] == '.' && v[start + 1]
            == '.') {
            None
        } else {
            Some(slice_text(&v, start, end))
        }
    }

    /// The directory that holds what `path` names.
    pub fn parent_of(self, path: &str) -> (r: String)
        ensures
            r@ == self.parent(path@),
    {
        let v = to_chars(path);
        let verbatim = self.verbatim(&v);
        let p: usize = self.prefix(&v);
        assert(v@.subrange(p as int, v@.len() as int) =~= v@.skip(p as int));
        let end: usize = self.tail_start(verbatim, &v, p, v.len());
        let start: usize = self.last_start(verbatim, &v, p, end);
        assert(v@.subrange(p as int, end as int).take(start - p) =~= v@.subrange(
            p as int,
            start as int,
        ));
        let cut: usize = self.dir_end(verbatim, &v, p, start);
        assert(v@.take(p as int) + v@.subrange(p as int, cut as int) =~= v@.subrange(
            0,
            cut as int,
        ));
        slice_text(&v, 0, cut)
    }

    /// `path` with its last part replaced by `name`.
    pub fn with_file_name(self, path: &str, name: &str) -> (r: String)
        ensures
            r@ == self.sibling(path@, name@),
    {
        if self.file_name(path).is_some() {
            self.join(self.parent_of(path).as_str(), name)
        } else {
            self.join(path, name)
        }
    }
}

/// `q` is one part of a path, and none that names a directory by its place.
pub open spec fn is_name(host: Host, q: Seq<char>) -> bool {
    &&& is_part(host, false, q)
    &&& q != seq!['.']
    &&& q != seq!['.', '.']
    &&& host.prefix_len(q) == 0
}

/// `q` is one part of a path.
pub open spec fn is_part(host: Host, verbatim: bool, q: Seq<char>) -> bool {
    q.len() > 0 && forall|i: int| 0 <= i < q.len() ==> !host.ends_part(verbatim, #[trigger] q[i])
}

/// Each is one part of a path.
pub open spec fn are_parts(host: Host, verbatim: bool, ps: Seq<Seq<char>>) -> bool {
    forall|i: int| 0 <= i < ps.len() ==> is_part(host, verbatim, #[trigger] ps[i])
}

impl Host {
    /// `path` lies under `root`, or is it: both say in the same way where their
    /// root lies, and the parts of `path` begin with those of `root`.
    pub open spec fn lies_under(self, path: Seq<char>, root: Seq<char>) -> bool {
        let p = self.prefix_len(root);
        &&& self.prefix_len(path) == p
        &&& path.take(p) == root.take(p)
        &&& self.is_verbatim(path) == self.is_verbatim(root)
        &&& self.parts(self.is_verbatim(root), root.skip(p)).is_prefix_of(
            self.parts(self.is_verbatim(root), path.skip(p)),
        )
    }

    /// `path` holds more than what says where its root lies, and, where it is
    /// taken as it stands, is written as such paths are.
    pub open spec fn is_settled(self, path: Seq<char>) -> bool {
        let body = path.skip(self.prefix_len(path));
        &&& path.len() > self.prefix_len(path)
        &&& self.is_verbatim(path) ==> body == seq!['\\'] || body == chained(self.parts(true, body))
    }

    proof fn part_of_joined(self, verbatim: bool, s: Seq<char>, t: Seq<char>)
        requires
            self.part_len(verbatim, s) < s.len() || t.len() == 0 || self.ends_part(verbatim, t[0]),
        ensures
            self.part_len(verbatim, s + t) == self.part_len(verbatim, s),
        decreases s.len(),
    {
        self.part_bounds(verbatim, s);
        if s.len() == 0 {
            assert(s + t =~= t);
        } else if !self.ends_part(verbatim, s[0]) {
            assert((s + t).skip(1) =~= s.skip(1) + t);
            self.part_of_joined(verbatim, s.skip(1), t);
        }
    }

    proof fn part_len_stops(self, verbatim: bool, s: Seq<char>)
        ensures
            0 <= self.part_len(verbatim, s) <= s.len(),
            forall|i: int|
                0 <= i < self.part_len(verbatim, s) ==> !self.ends_part(verbatim, #[trigger] s[i]),
            self.part_len(verbatim, s) < s.len() ==> self.ends_part(
                verbatim,
                s[self.part_len(verbatim, s)],
            ),
        decreases s.len(),
    {
        if s.len() > 0 && !self.ends_part(verbatim, s[0]) {
            let t = s.skip(1);
            self.part_len_stops(verbatim, t);
            assert forall|i: int| 0 <= i < self.part_len(verbatim, s) implies !self.ends_part(
                verbatim,
                #[trigger] s[i],
            ) by {
                if i > 0 {
                    assert(t[i - 1] == s[i]);
                }
            }
        }
    }

    /// The parts of two texts, where a separator stands between them.
    proof fn parts_of_joined(self, verbatim: bool, s: Seq<char>, t: Seq<char>)
        requires
            s.len() == 0 || self.ends_part(verbatim, s.last()) || t.len() == 0 || self.ends_part(
                verbatim,
                t[0],
            ),
        ensures
            self.parts(verbatim, s + t) == self.parts(verbatim, s) + self.parts(verbatim, t),
        decreases s.len(),
    {
        if s.len() == 0 {
            assert(s + t =~= t);
            assert(self.parts(verbatim, s) + self.parts(verbatim, t) =~= self.parts(verbatim, t));
        } else if self.ends_part(verbatim, s[0]) {
            assert((s + t).skip(1) =~= s.skip(1) + t);
            self.parts_of_joined(verbatim, s.skip(1), t);
        } else {
            let n = self.part_len(verbatim, s);
            self.part_len_stops(verbatim, s);
            assert(n > 0) by {
                self.part_bounds(verbatim, s.skip(1));
            }
            assert(n == s.len() ==> !self.ends_part(verbatim, s.last()));
            self.part_of_joined(verbatim, s, t);
            assert((s + t).take(n) =~= s.take(n));
            assert((s + t).skip(n) =~= s.skip(n) + t);
            assert(s.skip(n).len() > 0 ==> s.skip(n).last() == s.last());
            self.parts_of_joined(verbatim, s.skip(n), t);
            assert(seq![s.take(n)] + (self.parts(verbatim, s.skip(n)) + self.parts(verbatim, t))
                =~= (seq![s.take(n)] + self.parts(verbatim, s.skip(n))) + self.parts(verbatim, t));
        }
    }

    proof fn parts_are_parts(self, verbatim: bool, s: Seq<char>)
        ensures
            are_parts(self, verbatim, self.parts(verbatim, s)),
        decreases s.len(),
    {
        if s.len() == 0 {
        } else if self.ends_part(verbatim, s[0]) {
            self.parts_are_parts(verbatim, s.skip(1));
        } else {
            let n = self.part_len(verbatim, s);
            self.part_len_stops(verbatim, s);
            self.part_bounds(verbatim, s.skip(1));
            self.parts_are_parts(verbatim, s.skip(n));
            let rest = self.parts(verbatim, s.skip(n));
            let one = s.take(n);
            assert(is_part(self, verbatim, one)) by {
                assert forall|i: int| 0 <= i < one.len() implies !self.ends_part(
                    verbatim,
                    #[trigger] one[i],
                ) by {
                    assert(one[i] == s[i]);
                }
            }
            let all = seq![one] + rest;
            assert forall|i: int| 0 <= i < all.len() implies is_part(self, verbatim, #[trigger] all[i]) by {
                if i > 0 {
                    assert(all[i] == rest[i - 1]);
                }
            }
        }
    }

    proof fn parts_of_one(self, verbatim: bool, q: Seq<char>)
        requires
            is_part(self, verbatim, q),
        ensures
            self.parts(verbatim, q) == seq![q],
    {
        self.part_len_stops(verbatim, q);
        let n = self.part_len(verbatim, q);
        assert(!self.ends_part(verbatim, q[0]));
        assert(n == q.len());
        assert(q.take(n) =~= q);
        assert(q.skip(n) =~= Seq::<char>::empty());
        reveal_with_fuel(Host::parts, 2);
        assert(self.parts(verbatim, q) =~= seq![q]);
    }

    proof fn parts_of_chained(self, ps: Seq<Seq<char>>)
        requires
            are_parts(self, true, ps),
        ensures
            self.parts(true, chained(ps)) == ps,
        decreases ps.len(),
    {
        if ps.len() > 0 {
            let front = ps.drop_last();
            let last = ps.last();
            assert(are_parts(self, true, front)) by {
                assert forall|i: int| 0 <= i < front.len() implies is_part(
                    self,
                    true,
                    #[trigger] front[i],
                ) by {
                    assert(front[i] == ps[i]);
                }
            }
            self.parts_of_chained(front);
            let t = seq!['\\'] + last;
            assert(chained(ps) =~= chained(front) + t);
            self.parts_of_joined(true, chained(front), t);
            assert(t.skip(1) =~= last);
            assert(is_part(self, true, ps[ps.len() - 1]));
            self.parts_of_one(true, last);
            assert(front + seq![last] =~= ps);
        } else {
            assert(self.parts(true, chained(ps)) =~= ps);
        }
    }

    proof fn settling_keeps_parts(self, start: Seq<Seq<char>>, more: Seq<Seq<char>>)
        requires
            are_parts(self, true, start),
            are_parts(self, false, more),
            self == Host::Windows,
        ensures
            are_parts(self, true, settled(start, more)),
            !more.contains(".."@) ==> start.is_prefix_of(settled(start, more)),
        decreases more.len(),
    {
        if more.len() > 0 {
            let front = more.drop_last();
            assert(are_parts(self, false, front)) by {
                assert forall|i: int| 0 <= i < front.len() implies is_part(
                    self,
                    false,
                    #[trigger] front[i],
                ) by {
                    assert(front[i] == more[i]);
                }
            }
            self.settling_keeps_parts(start, front);
            let all = settled(start, front);
            let part = more.last();
            assert(is_part(self, false, more[more.len() - 1]));
            assert(is_part(self, true, part)) by {
                assert forall|i: int| 0 <= i < part.len() implies !self.ends_part(
                    true,
                    #[trigger] part[i],
                ) by {
                    assert(!self.ends_part(false, part[i]));
                }
            }
            assert forall|i: int| 0 <= i < settled(start, more).len() implies is_part(
                self,
                true,
                #[trigger] settled(start, more)[i],
            ) by {
                if i < all.len() {
                    assert(is_part(self, true, all[i]));
                }
            }
            if !more.contains(".."@) {
                assert(part != ".."@);
                assert forall|i: int| 0 <= i < front.len() implies front[i] != ".."@ by {
                    assert(front[i] == more[i]);
                }
                assert(!front.contains(".."@));
                assert(start.is_prefix_of(settled(start, more)));
            }
        }
    }

    /// What is put behind a path that is taken as it stands is written so that
    /// it may be.
    proof fn verbatim_paths_are_settled(self, base: Seq<char>, rel: Seq<char>)
        requires
            self.is_verbatim(base),
            rel.len() > 0,
            self.prefix_len(rel) == 0,
            self.prefix_len(self.path(base, rel)) == self.prefix_len(base),
            self.path(base, rel).len() > self.prefix_len(base),
        ensures
            self.is_verbatim(self.path(base, rel)),
            self.is_settled(self.path(base, rel)),
            self.path(base, rel).take(self.prefix_len(base)) == base.take(self.prefix_len(base)),
            !self.is_rooted(rel) && !self.parts(false, rel).contains(".."@) ==> self.lies_under(
                self.path(base, rel),
                base,
            ),
    {
        let p = self.prefix_len(base);
        self.prefix_bounds(base);
        self.part_bounds(true, base.skip(4));
        self.part_bounds(true, base.skip(4).skip(4));
        assert(p >= 4);
        let t = self.path(base, rel);
        let start = if self.is_rooted(rel) {
            seq![]
        } else {
            self.parts(true, base.skip(p))
        };
        self.parts_are_parts(true, base.skip(p));
        self.parts_are_parts(false, rel);
        let all = settled(start, self.parts(false, rel));
        self.settling_keeps_parts(start, self.parts(false, rel));
        self.parts_of_chained(all);
        let body = t.skip(p);
        assert(t.take(p) =~= base.take(p));
        assert(t[0] == t.take(p)[0] && t[1] == t.take(p)[1] && t[2] == t.take(p)[2] && t[3]
            == t.take(p)[3]);
        assert(body =~= seq!['\\'] || body =~= chained(all));
        if body == seq!['\\'] && all.len() == 0 {
            assert(body.skip(1) =~= Seq::<char>::empty());
            assert(self.parts(true, body) =~= seq![]);
        }
    }

    proof fn last_part_of_joined(self, verbatim: bool, s: Seq<char>, q: Seq<char>)
        requires
            forall|i: int| 0 <= i < q.len() ==> !self.ends_part(verbatim, #[trigger] q[i]),
            s.len() == 0 || self.ends_part(verbatim, s.last()),
        ensures
            self.last_part_len(verbatim, s + q) == q.len(),
        decreases q.len(),
    {
        if q.len() == 0 {
            assert(s + q =~= s);
        } else {
            assert((s + q).drop_last() =~= s + q.drop_last());
            assert((s + q).last() == q[q.len() - 1]);
            self.last_part_of_joined(verbatim, s, q.drop_last());
        }
    }

    /// What stands before a name that is put behind `dir`, and behind what says
    /// where its root lies.
    spec fn front(self, dir: Seq<char>) -> Seq<char> {
        let body = dir.skip(self.prefix_len(dir));
        if self.is_verbatim(dir) {
            if body == seq!['\\'] {
                body
            } else {
                body.push('\\')
            }
        } else if self.open_ended(dir) {
            body
        } else if self == Host::Windows {
            body.push('\\')
        } else {
            body.push('/')
        }
    }

    proof fn joined_with_name(self, dir: Seq<char>, name: Seq<char>)
        requires
            is_name(self, name),
            self.is_settled(dir),
        ensures
            self.path(dir, name) == dir.take(self.prefix_len(dir)) + (self.front(dir) + name),
    {
        let p = self.prefix_len(dir);
        let t = self.path(dir, name);
        self.prefix_bounds(dir);
        let body = dir.skip(p);
        assert(!self.ends_part(false, name[0]));
        assert(!self.is_rooted(name));
        if self.is_verbatim(dir) {
            self.named_parts(body, name);
            assert(t =~= dir.take(p) + (self.front(dir) + name));
        } else {
            reveal_strlit("\\");
            reveal_strlit("/");
            assert(dir =~= dir.take(p) + body);
            assert(t =~= dir.take(p) + (self.front(dir) + name));
        }
    }

    proof fn named_parts(self, body: Seq<char>, name: Seq<char>)
        requires
            is_name(self, name),
            body == seq!['\\'] || body == chained(self.parts(true, body)),
        ensures
            settled(self.parts(true, body), self.parts(false, name)) == self.parts(true, body).push(
                name,
            ),
            chained(self.parts(true, body).push(name)) == (if body == seq!['\\'] {
                body
            } else {
                body.push('\\')
            }) + name,
    {
        let ps = self.parts(true, body);
        self.parts_of_one(false, name);
        reveal_with_fuel(settled, 2);
        reveal_strlit(".");
        reveal_strlit("..");
        assert("."@ =~= seq!['.']);
        assert(".."@ =~= seq!['.', '.']);
        assert(seq![name].drop_last() =~= Seq::<Seq<char>>::empty());
        assert(seq![name].last() == name);
        assert(settled(ps, seq![name]) == ps.push(name));
        assert(ps.push(name).drop_last() =~= ps);
        assert(ps.push(name).last() == name);
        if body == seq!['\\'] {
            assert(body.skip(1) =~= Seq::<char>::empty());
            reveal_with_fuel(Host::parts, 2);
            assert(ps =~= seq![]);
            assert(chained(ps) =~= Seq::<char>::empty());
        }
        assert(chained(ps.push(name)) =~= (if body == seq!['\\'] {
            body
        } else {
            body.push('\\')
        }) + name);
    }

    proof fn dir_of_named(self, v: bool, front: Seq<char>, name: Seq<char>)
        requires
            is_part(self, v, name),
            name != seq!['.'],
            v || forall|i: int| 0 <= i < name.len() ==> !self.separates(#[trigger] name[i]),
            front.len() > 0,
            self.ends_part(v, front.last()),
        ensures
            self.without_tail(v, front + name) == front + name,
            self.last_part_len(v, front + name) == name.len(),
            (front + name).take((front + name).len() - name.len()) == front,
            (front + name).skip((front + name).len() - name.len()) == name,
    {
        let s = front + name;
        assert(s.last() == name[name.len() - 1]);
        assert(s[s.len() - 2] == (if name.len() > 1 {
            name[name.len() - 2]
        } else {
            front.last()
        }));
        assert(name.len() == 1 && name[0] == '.' ==> name =~= seq!['.']);
        self.last_part_of_joined(v, front, name);
        assert(s.take(s.len() - name.len()) =~= front);
        assert(s.skip(s.len() - name.len()) =~= name);
    }

    proof fn verbatim_by_prefix(self, a: Seq<char>, b: Seq<char>)
        requires
            self.is_verbatim(a),
            self.prefix_len(b) == self.prefix_len(a),
            b.take(self.prefix_len(a)) == a.take(self.prefix_len(a)),
        ensures
            self.is_verbatim(b),
    {
        let p = self.prefix_len(a);
        self.prefix_bounds(a);
        self.prefix_bounds(b);
        self.part_bounds(true, a.skip(4));
        self.part_bounds(true, a.skip(4).skip(4));
        assert(p >= 4);
        assert(forall|i: int| 0 <= i < 4 ==> #[trigger] a.take(p)[i] == a[i]);
        assert(forall|i: int| 0 <= i < 4 ==> #[trigger] b.take(p)[i] == b[i]);
        assert(b.take(p)[0] == a[0] && b.take(p)[1] == a[1] && b.take(p)[2] == a[2] && b.take(p)[3]
            == a[3]);
    }

    /// The directory of a name that was put behind `dir` is `dir`, without the
    /// separators at its end.
    pub proof fn parent_undoes_join(self, dir: Seq<char>, name: Seq<char>)
        requires
            is_name(self, name),
            self.is_settled(dir),
            self.prefix_len(self.path(dir, name)) == self.prefix_len(dir),
        ensures
            self.parent(self.path(dir, name)) == self.bare(dir),
            self.last_part(self.path(dir, name)) == Some(name),
            self.path(dir, name).len() > self.prefix_len(dir),
    {
        let p = self.prefix_len(dir);
        let t = self.path(dir, name);
        let v = self.is_verbatim(dir);
        let body = dir.skip(p);
        let front = self.front(dir);
        self.prefix_bounds(dir);
        self.joined_with_name(dir, name);
        assert(t.take(p) =~= dir.take(p));
        assert(t.skip(p) =~= front + name);
        if v {
            self.verbatim_by_prefix(dir, t);
        } else if self.is_verbatim(t) {
            self.verbatim_by_prefix(t, dir);
        }
        assert(is_part(self, v, name)) by {
            assert forall|i: int| 0 <= i < name.len() implies !self.ends_part(v, #[trigger] name[i]) by {
                assert(!self.ends_part(false, name[i]));
            }
        }
        assert forall|i: int| 0 <= i < name.len() implies !self.separates(#[trigger] name[i]) by {
            assert(!self.ends_part(false, name[i]));
        }
        assert(front.len() > 0 && self.ends_part(v, front.last())) by {
            if !v && self.open_ended(dir) {
                assert(dir.last() == body.last());
            }
        }
        self.dir_of_named(v, front, name);
        if front != body {
            assert(front.drop_last() =~= body);
            assert(self.without_tail(v, front) == self.without_tail(v, body));
            assert(front.take(1) =~= body.take(1));
        }
        assert(self.plain_dir(v, front) == self.plain_dir(v, body));
        assert(name =~= seq!['.'] ==> name == seq!['.']);
        assert(name =~= seq!['.', '.'] ==> name == seq!['.', '.']);
    }

    /// A directory whose last part ends in no dot has nothing at its end that
    /// names nothing further.
    pub proof fn bare_as_it_stands(self, dir: Seq<char>)
        requires
            dir.len() > self.prefix_len(dir),
            !self.separates(dir.last()),
            dir.last() != '.',
        ensures
            self.bare(dir) == dir,
    {
        let p = self.prefix_len(dir);
        self.prefix_bounds(dir);
        assert(dir.skip(p).last() == dir.last());
        assert(dir.take(p) + dir.skip(p) =~= dir);
    }

    /// What lies under a directory lies under what that lies under.
    pub proof fn lying_under_is_transitive(self, a: Seq<char>, b: Seq<char>, c: Seq<char>)
        requires
            self.lies_under(a, b),
            self.lies_under(b, c),
        ensures
            self.lies_under(a, c),
    {
        let p = self.prefix_len(c);
        let v = self.is_verbatim(c);
        let x = self.parts(v, a.skip(p));
        let y = self.parts(v, b.skip(p));
        let z = self.parts(v, c.skip(p));
        assert(z.is_prefix_of(y) && y.is_prefix_of(x));
        assert(x.take(z.len() as int) =~= y.take(z.len() as int));
    }

    /// A text without a dot has no part that names the directory above, nor one
    /// that names the directory itself.
    pub(crate) proof fn parts_without_dots(self, verbatim: bool, s: Seq<char>)
        requires
            forall|i: int| 0 <= i < s.len() ==> #[trigger] s[i] != '.',
        ensures
            forall|i: int|
                0 <= i < self.parts(verbatim, s).len() ==> #[trigger] self.parts(verbatim, s)[i] != ".."@
                    && self.parts(verbatim, s)[i] != "."@,
        decreases s.len(),
    {
        reveal_strlit(".");
        reveal_strlit("..");
        if s.len() == 0 {
        } else if self.ends_part(verbatim, s[0]) {
            let t = s.skip(1);
            self.parts_without_dots(verbatim, t);
            assert(self.parts(verbatim, s) == self.parts(verbatim, t));
            assert forall|i: int| 0 <= i < self.parts(verbatim, s).len() implies #[trigger] self.parts(
                verbatim,
                s,
            )[i] != ".."@ && self.parts(verbatim, s)[i] != "."@ by {
                assert(self.parts(verbatim, t)[i] != ".."@);
            }
        } else {
            let n = self.part_len(verbatim, s);
            self.part_len_stops(verbatim, s);
            self.part_bounds(verbatim, s.skip(1));
            let rest = self.parts(verbatim, s.skip(n));
            self.parts_without_dots(verbatim, s.skip(n));
            assert(s.take(n)[0] == s[0]);
            assert(s.take(n) != ".."@ && s.take(n) != "."@) by {
                assert(".."@[0] == '.' && "."@[0] == '.');
            }
            let all = self.parts(verbatim, s);
            assert(all == seq![s.take(n)] + rest);
            assert forall|i: int| 0 <= i < all.len() implies #[trigger] all[i] != ".."@ && all[i]
                != "."@ by {
                if i > 0 {
                    assert(all[i] == rest[i - 1]);
                }
            }
        }
    }

    pub(crate) proof fn named_parts_hold_no_dots(self, name: Seq<char>)
        requires
            is_name(self, name),
        ensures
            !self.parts(false, name).contains(".."@),
    {
        self.parts_of_one(false, name);
        reveal_strlit("..");
        assert(".."@ =~= seq!['.', '.']);
        assert(!seq![name].contains(".."@)) by {
            assert(seq![name][0] == name);
        }
    }

    /// A text that begins with no separator has a part.
    pub(crate) proof fn first_part(self, s: Seq<char>)
        requires
            s.len() > 0,
            !self.separates(s[0]),
        ensures
            self.parts(false, s).len() > 0,
    {
        self.part_len_stops(false, s);
        self.part_bounds(false, s.skip(1));
    }

    /// The last part of a text that ends in no separator ends as the text does.
    proof fn final_part(self, verbatim: bool, s: Seq<char>)
        requires
            s.len() > 0,
            !self.ends_part(verbatim, s.last()),
        ensures
            self.parts(verbatim, s).len() > 0,
            self.parts(verbatim, s).last().len() > 0,
            self.parts(verbatim, s).last().last() == s.last(),
        decreases s.len(),
    {
        if self.ends_part(verbatim, s[0]) {
            assert(s.skip(1).last() == s.last());
            self.final_part(verbatim, s.skip(1));
        } else {
            let n = self.part_len(verbatim, s);
            self.part_len_stops(verbatim, s);
            self.part_bounds(verbatim, s.skip(1));
            if n < s.len() {
                assert(s.skip(n).last() == s.last());
                self.final_part(verbatim, s.skip(n));
                let rest = self.parts(verbatim, s.skip(n));
                assert((seq![s.take(n)] + rest).last() == rest.last());
            } else {
                assert(s.skip(n) =~= Seq::<char>::empty());
                assert(self.parts(verbatim, s.skip(n)) =~= seq![]);
                assert((seq![s.take(n)] + self.parts(verbatim, s.skip(n))).last() == s.take(n));
                assert(s.take(n) =~= s);
            }
        }
    }

    /// What is put behind a path that is taken as it stands stands at its end.
    pub(crate) proof fn verbatim_ends_with(self, root: Seq<char>, rel: Seq<char>)
        requires
            self.is_verbatim(root),
            rel.len() > 0,
            self.prefix_len(rel) == 0,
            !self.separates(rel[0]),
            !self.separates(rel.last()),
            rel.last() != '.',
        ensures
            self.path(root, rel).last() == rel.last(),
    {
        let p = self.prefix_len(root);
        let start = self.parts(true, root.skip(p));
        let more = self.parts(false, rel);
        self.final_part(false, rel);
        reveal_strlit(".");
        reveal_strlit("..");
        assert("."@.last() == '.' && ".."@.last() == '.');
        let all = settled(start, more);
        assert(all.last() == more.last());
        assert(chained(all).last() == rel.last());
    }

    /// The parts of a text with a separator in it are those before and behind it.
    pub(crate) proof fn parts_behind_separator(self, verbatim: bool, s: Seq<char>, t: Seq<char>)
        requires
            s.len() > 0,
            self.ends_part(verbatim, s.last()),
        ensures
            self.parts(verbatim, s + t) == self.parts(verbatim, s) + self.parts(verbatim, t),
    {
        self.parts_of_joined(verbatim, s, t);
    }

    /// What is put behind a path makes it longer than what says where its root
    /// lies.
    pub(crate) proof fn joined_is_longer(self, root: Seq<char>, rel: Seq<char>)
        requires
            rel.len() > 0,
            self.prefix_len(rel) == 0,
            !self.is_rooted(rel),
            self.is_verbatim(root) ==> {
                let ps = self.parts(false, rel);
                ps.len() > 0 && ps[0] != "."@ && !ps.contains(".."@)
            },
        ensures
            self.path(root, rel).len() > self.prefix_len(root),
    {
        self.prefix_bounds(root);
        if self.is_verbatim(root) {
            let p = self.prefix_len(root);
            let start = self.parts(true, root.skip(p));
            let more = self.parts(false, rel);
            settling_grows(start, more);
            let all = settled(start, more);
            assert(chained(all).len() > 0);
        } else {
            reveal_strlit("\\");
            reveal_strlit("/");
        }
    }

    /// What stands behind `root` in the path of `rel` under it.
    spec fn tail(self, root: Seq<char>, rel: Seq<char>) -> Seq<char> {
        if self.open_ended(root) {
            rel
        } else if self == Host::Windows {
            seq!['\\'] + rel
        } else {
            seq!['/'] + rel
        }
    }

    proof fn joined_with_tail(self, root: Seq<char>, rel: Seq<char>)
        requires
            self.prefix_len(rel) == 0,
            !self.is_rooted(rel),
            !self.is_verbatim(root),
        ensures
            ({
                let p = self.prefix_len(root);
                let body = root.skip(p);
                let tail = self.tail(root, rel);
                &&& self.path(root, rel) == root.take(p) + (body + tail)
                &&& body.len() == 0 || self.separates(body.last()) || self.separates(tail[0])
            }),
    {
        let p = self.prefix_len(root);
        let body = root.skip(p);
        self.prefix_bounds(root);
        reveal_strlit("\\");
        reveal_strlit("/");
        assert(root =~= root.take(p) + body);
        assert(self.path(root, rel) =~= root.take(p) + (body + self.tail(root, rel)));
        if body.len() > 0 {
            assert(body.last() == root.last());
        }
    }

    /// What is put behind a root lies under it.
    pub proof fn joined_lies_under(self, root: Seq<char>, rel: Seq<char>)
        requires
            rel.len() > 0,
            self.prefix_len(rel) == 0,
            !self.is_rooted(rel),
            self.prefix_len(self.path(root, rel)) == self.prefix_len(root),
            self.path(root, rel).len() > self.prefix_len(root),
            self.is_verbatim(root) ==> !self.parts(false, rel).contains(".."@),
        ensures
            self.lies_under(self.path(root, rel), root),
            self.is_settled(self.path(root, rel)),
    {
        let p = self.prefix_len(root);
        let t = self.path(root, rel);
        self.prefix_bounds(root);
        if self.is_verbatim(root) {
            self.verbatim_paths_are_settled(root, rel);
        } else {
            let body = root.skip(p);
            let tail = self.tail(root, rel);
            self.joined_with_tail(root, rel);
            assert(t.take(p) =~= root.take(p));
            assert(t.skip(p) =~= body + tail);
            if self.is_verbatim(t) {
                self.verbatim_by_prefix(t, root);
            }
            self.parts_of_joined(false, body, tail);
        }
    }
}

/// The parts `start` with `more` behind them. One that names the directory itself
/// is left out, and one that names the directory above takes the last one away.
pub open spec fn settled(start: Seq<Seq<char>>, more: Seq<Seq<char>>) -> Seq<Seq<char>>
    decreases more.len(),
{
    if more.len() == 0 {
        start
    } else {
        let all = settled(start, more.drop_last());
        let part = more.last();
        if part == "."@ {
            all
        } else if part == ".."@ {
            if all.len() > 0 && all.last() != "."@ && all.last() != ".."@ {
                all.drop_last()
            } else {
                all
            }
        } else {
            all.push(part)
        }
    }
}

proof fn settling_grows(start: Seq<Seq<char>>, more: Seq<Seq<char>>)
    requires
        more.len() > 0,
        more[0] != "."@,
        !more.contains(".."@),
    ensures
        settled(start, more).len() > start.len(),
    decreases more.len(),
{
    let front = more.drop_last();
    assert(more.last() != ".."@);
    if front.len() == 0 {
        assert(settled(start, front) == start);
    } else {
        assert(front[0] == more[0]);
        assert forall|i: int| 0 <= i < front.len() implies front[i] != ".."@ by {
            assert(front[i] == more[i]);
        }
        settling_grows(start, front);
    }
}

/// The parts, each with a separator before it.
pub open spec fn chained(parts: Seq<Seq<char>>) -> Seq<char>
    decreases parts.len(),
{
    if parts.len() == 0 {
        seq![]
    } else {
        chained(parts.drop_last()) + seq!['\\'] + parts.last()
    }
}

/// The parts `start` with `more` behind them.
fn settle(start: Vec<String>, more: &Vec<String>) -> (r: Vec<String>)
    ensures
        views(r@) == settled(views(start@), views(more@)),
{
    let mut r = start;
    let ghost first = views(start@);
    let ghost all = views(more@);
    let mut i: usize = 0;
    assert(all.take(0) =~= seq![]);
    while i < more.len()
        invariant
            i <= more.len(),
            all == views(more@),
            views(r@) == settled(first, all.take(i as int)),
        decreases more.len() - i,
    {
        assert(all.take(i + 1).drop_last() =~= all.take(i as int));
        assert(all.take(i + 1).last() == more@[i as int]@);
        let ghost was = views(r@);
        let part = more[i].as_str();
        if same(part, ".") {
        } else if same(part, "..") {
            let n: usize = r.len();
            if n > 0 && !same(r[n - 1].as_str(), ".") && !same(r[n - 1].as_str(), "..") {
                assert(was.last() == r@[n - 1]@);
                let _ = r.pop();
                assert(views(r@) =~= was.drop_last());
            } else {
                assert(n > 0 ==> was.last() == r@[n - 1]@);
            }
        } else {
            push_text(&mut r, part);
        }
        i = i + 1;
    }
    assert(all.take(more@.len() as int) =~= all);
    r
}

/// Puts the parts behind `r`, each with a separator before it.
fn chain(r: &mut String, parts: &Vec<String>)
    ensures
        final(r)@ == old(r)@ + chained(views(parts@)),
{
    let ghost all = views(parts@);
    let ghost first = r@;
    let mut i: usize = 0;
    assert(all.take(0) =~= seq![]);
    assert(first + chained(all.take(0)) =~= first);
    while i < parts.len()
        invariant
            i <= parts.len(),
            all == views(parts@),
            first == old(r)@,
            r@ == first + chained(all.take(i as int)),
        decreases parts.len() - i,
    {
        assert(all.take(i + 1).drop_last() =~= all.take(i as int));
        assert(all.take(i + 1).last() == parts@[i as int]@);
        r.push('\\');
        r.append(parts[i].as_str());
        assert(r@ =~= first + chained(all.take(i + 1)));
        i = i + 1;
    }
    assert(all.take(parts@.len() as int) =~= all);
}

} // verus!
