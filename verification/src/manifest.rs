//! Scanning a package manifest for the dependencies it declares.
//!
//! A manifest is read line by line. The dependencies are declared below the
//! line that holds the section header, up to the next line in square brackets.
//! Of those lines, only the ones with exactly one `=` declare a package.

use crate::text::{
    chars_of, line_spans, lines, range_is, span_texts, string_of, string_without, trim, trim_span,
    without,
};
use vstd::prelude::*;

verus! {

/// A dependency as the manifest declares it.
pub struct Package {
    /// What stands before the `=`, trimmed.
    pub name: String,
    /// What stands after the `=`, trimmed and without double quotes.
    pub version: String,
    /// The line of the declaration, counted from 0.
    pub line: u32,
}

/// What a [`Package`] holds, as mathematical values.
pub struct PackageView {
    pub name: Seq<char>,
    pub version: Seq<char>,
    pub line: nat,
}

impl View for Package {
    type V = PackageView;

    open spec fn view(&self) -> PackageView {
        PackageView { name: self.name@, version: self.version@, line: self.line as nat }
    }
}

/// The views of `packages`, in order.
pub open spec fn package_views(packages: Seq<Package>) -> Seq<PackageView> {
    Seq::new(packages.len(), |k: int| packages[k]@)
}

/// A line is the section header when, trimmed, it reads `[dependencies]`.
pub open spec fn is_section_header(line: Seq<char>) -> bool {
    trim(line) == "[dependencies]"@
}

/// A line that starts with `[` and ends with `]`.
pub open spec fn is_bracketed(line: Seq<char>) -> bool {
    line.len() > 0 && line.first() == '[' && line.last() == ']'
}

/// `at` is the place of the one and only `=` of `line`.
pub open spec fn delimiter_at(line: Seq<char>, at: int) -> bool {
    &&& 0 <= at < line.len()
    &&& line[at] == '='
    &&& forall|j: int| 0 <= j < line.len() && line[j] == '=' ==> j == at
}

/// A line declares a package when it holds exactly one `=`.
pub open spec fn is_declaration(line: Seq<char>) -> bool {
    exists|at: int| delimiter_at(line, at)
}

/// The package that `line` declares, where it is line `number`.
pub open spec fn declaration(line: Seq<char>, number: nat) -> PackageView
    recommends
        is_declaration(line),
{
    let at = choose|at: int| delimiter_at(line, at);
    PackageView {
        name: trim(line.subrange(0, at)),
        version: without(trim(line.subrange(at + 1, line.len() as int)), '"'),
        line: number,
    }
}

/// The index of the first section header at or after `from`, or `lines.len()`
/// where there is none.
pub open spec fn header_index(lines: Seq<Seq<char>>, from: int) -> int
    decreases lines.len() - from,
{
    if from < 0 || from >= lines.len() {
        lines.len() as int
    } else if is_section_header(lines[from]) {
        from
    } else {
        header_index(lines, from + 1)
    }
}

/// The index of the first bracketed line at or after `from`, or `lines.len()`
/// where there is none.
pub open spec fn closing_index(lines: Seq<Seq<char>>, from: int) -> int
    decreases lines.len() - from,
{
    if from < 0 || from >= lines.len() {
        lines.len() as int
    } else if is_bracketed(lines[from]) {
        from
    } else {
        closing_index(lines, from + 1)
    }
}

/// The packages that the lines `from..to` declare, each with its line number.
pub open spec fn declared(lines: Seq<Seq<char>>, from: int, to: int) -> Seq<PackageView>
    decreases to - from,
{
    if from < 0 || to <= from || to > lines.len() {
        Seq::empty()
    } else {
        let earlier = declared(lines, from, to - 1);
        if is_declaration(lines[to - 1]) {
            earlier.push(declaration(lines[to - 1], (to - 1) as nat))
        } else {
            earlier
        }
    }
}

/// The packages that a manifest of these lines declares: those of the lines
/// after the first section header and before the next bracketed line.
pub open spec fn packages_of(lines: Seq<Seq<char>>) -> Seq<PackageView> {
    let header = header_index(lines, 0);
    declared(lines, header + 1, closing_index(lines, header + 1))
}

/// The packages that the manifest `text` declares.
pub open spec fn manifest_packages(text: Seq<char>) -> Seq<PackageView> {
    packages_of(lines(text))
}

/// `header_index` is the first section header: no line before it is one, and
/// none at all where it is the number of lines.
pub proof fn lemma_header_index(lines: Seq<Seq<char>>, from: int)
    requires
        0 <= from <= lines.len(),
    ensures
        from <= header_index(lines, from) <= lines.len(),
        forall|k: int| from <= k < header_index(lines, from) ==> !is_section_header(lines[k]),
        header_index(lines, from) < lines.len() ==> is_section_header(
            lines[header_index(lines, from)],
        ),
    decreases lines.len() - from,
{
    if from < lines.len() && !is_section_header(lines[from]) {
        lemma_header_index(lines, from + 1);
    }
}

/// `closing_index` is the first bracketed line at or after `from`.
pub proof fn lemma_closing_index(lines: Seq<Seq<char>>, from: int)
    requires
        0 <= from <= lines.len(),
    ensures
        from <= closing_index(lines, from) <= lines.len(),
        forall|k: int| from <= k < closing_index(lines, from) ==> !is_bracketed(lines[k]),
        closing_index(lines, from) < lines.len() ==> is_bracketed(
            lines[closing_index(lines, from)],
        ),
    decreases lines.len() - from,
{
    if from < lines.len() && !is_bracketed(lines[from]) {
        lemma_closing_index(lines, from + 1);
    }
}

/// Every declared package stands on a line of its own between `from` and
/// `to`, and the packages stand in the order of their lines.
pub proof fn lemma_declared_lines(lines: Seq<Seq<char>>, from: int, to: int)
    requires
        0 <= from,
        to <= lines.len(),
    ensures
        declared(lines, from, to).len() <= if to <= from {
            0
        } else {
            to - from
        },
        forall|k: int|
            0 <= k < declared(lines, from, to).len() ==> {
                let number = (#[trigger] declared(lines, from, to)[k]).line as int;
                &&& from <= number < to
                &&& is_declaration(lines[number])
                &&& declared(lines, from, to)[k] == declaration(lines[number], number as nat)
            },
        forall|j: int, k: int|
            0 <= j < k < declared(lines, from, to).len() ==> declared(lines, from, to)[j].line
                < declared(lines, from, to)[k].line,
    decreases to - from,
{
    if from < to {
        lemma_declared_lines(lines, from, to - 1);
    }
}

/// Every declaration between `from` and `to` is among the declared packages.
pub proof fn lemma_declared_holds(lines: Seq<Seq<char>>, from: int, to: int, number: int)
    requires
        0 <= from <= number < to <= lines.len(),
        is_declaration(lines[number]),
    ensures
        declared(lines, from, to).contains(declaration(lines[number], number as nat)),
    decreases to - from,
{
    let earlier = declared(lines, from, to - 1);
    if number < to - 1 {
        lemma_declared_holds(lines, from, to - 1, number);
        let k = choose|k: int|
            0 <= k < earlier.len() && earlier[k] == declaration(lines[number], number as nat);
        assert(declared(lines, from, to)[k] == earlier[k]);
    } else {
        assert(declared(lines, from, to)[earlier.len() as int] == declaration(
            lines[number],
            number as nat,
        ));
    }
}

/// The packages of a manifest are the declarations on the lines after the
/// first section header and before the next bracketed line: each package is
/// such a declaration, and each such declaration is a package.
pub proof fn lemma_packages_are_the_section(lines: Seq<Seq<char>>)
    ensures
        forall|k: int|
            0 <= k < packages_of(lines).len() ==> {
                let number = (#[trigger] packages_of(lines)[k]).line as int;
                &&& header_index(lines, 0) < number < closing_index(
                    lines,
                    header_index(lines, 0) + 1,
                )
                &&& is_declaration(lines[number])
                &&& packages_of(lines)[k] == declaration(lines[number], number as nat)
            },
        forall|number: int|
            header_index(lines, 0) < number < closing_index(lines, header_index(lines, 0) + 1)
                && is_declaration(#[trigger] lines[number]) ==> packages_of(lines).contains(
                declaration(lines[number], number as nat),
            ),
{
    let header = header_index(lines, 0);
    lemma_header_index(lines, 0);
    if header < lines.len() {
        let closing = closing_index(lines, header + 1);
        lemma_closing_index(lines, header + 1);
        lemma_declared_lines(lines, header + 1, closing);
        assert forall|number: int|
            header < number < closing && is_declaration(
                #[trigger] lines[number],
            ) implies packages_of(lines).contains(declaration(lines[number], number as nat)) by {
            lemma_declared_holds(lines, header + 1, closing, number);
        }
    }
}

/// The packages of a manifest stand in the order of their lines, and no two
/// of them on one line.
pub proof fn lemma_packages_stand_in_line_order(text: Seq<char>)
    ensures
        forall|j: int, k: int|
            0 <= j < k < manifest_packages(text).len() ==> manifest_packages(text)[j].line
                < manifest_packages(text)[k].line,
{
    let ls = lines(text);
    let header = header_index(ls, 0);
    lemma_header_index(ls, 0);
    if header < ls.len() {
        lemma_closing_index(ls, header + 1);
        lemma_declared_lines(ls, header + 1, closing_index(ls, header + 1));
    }
}

/// A manifest without a section header declares no package.
pub proof fn lemma_no_header_no_packages(lines: Seq<Seq<char>>)
    requires
        forall|k: int| 0 <= k < lines.len() ==> !is_section_header(lines[k]),
    ensures
        packages_of(lines) == Seq::<PackageView>::empty(),
{
    lemma_header_index(lines, 0);
}

/// Tells whether `chars[from..to]` is the section header, given the header's
/// characters.
fn section_header_at(chars: &Vec<char>, from: usize, to: usize, header: &Vec<char>) -> (is: bool)
    requires
        from <= to <= chars.len(),
        header@ == "[dependencies]"@,
    ensures
        is == is_section_header(chars@.subrange(from as int, to as int)),
{
    let (first, last) = trim_span(chars, from, to);
    range_is(chars, first, last, header)
}

/// Tells whether `chars[from..to]` is a bracketed line.
fn bracketed_at(chars: &Vec<char>, from: usize, to: usize) -> (is: bool)
    requires
        from <= to <= chars.len(),
    ensures
        is == is_bracketed(chars@.subrange(from as int, to as int)),
{
    from < to && chars[from] == '[' && chars[to - 1] == ']'
}

/// The package that `chars[from..to]` declares as line `number`, if it
/// declares one.
fn declaration_at(chars: &Vec<char>, from: usize, to: usize, number: u32) -> (found: Option<
    Package,
>)
    requires
        from <= to <= chars.len(),
    ensures
        found is Some == is_declaration(chars@.subrange(from as int, to as int)),
        found is Some ==> found->0@ == declaration(
            chars@.subrange(from as int, to as int),
            number as nat,
        ),
{
    let ghost line = chars@.subrange(from as int, to as int);
    let mut at: usize = from;
    while at < to && chars[at] != '='
        invariant
            from <= at <= to <= chars.len(),
            forall|j: int| from <= j < at ==> chars@[j] != '=',
        decreases to - at,
    {
        at += 1;
    }
    if at == to {
        assert forall|i: int| !delimiter_at(line, i) by {
            if 0 <= i < line.len() {
                assert(line[i] == chars@[from + i]);
            }
        }
        return None;
    }
    let mut next: usize = at + 1;
    while next < to && chars[next] != '='
        invariant
            at < next <= to <= chars.len(),
            forall|j: int| at < j < next ==> chars@[j] != '=',
        decreases to - next,
    {
        next += 1;
    }
    if next < to {
        assert forall|i: int| !delimiter_at(line, i) by {
            assert(line[at - from] == '=');
            assert(line[next - from] == '=');
        }
        return None;
    }
    let (name_first, name_last) = trim_span(chars, from, at);
    let (version_first, version_last) = trim_span(chars, at + 1, to);
    let package = Package {
        name: string_of(chars, name_first, name_last),
        version: string_without(chars, version_first, version_last, '"'),
        line: number,
    };
    proof {
        assert(delimiter_at(line, at - from)) by {
            assert forall|j: int| 0 <= j < line.len() && line[j] == '=' implies j == at - from by {
                assert(line[j] == chars@[from + j]);
            }
        }
        let chosen = choose|i: int| delimiter_at(line, i);
        assert(chosen == at - from);
        assert(line.subrange(0, at - from) =~= chars@.subrange(from as int, at as int));
        assert(line.subrange(at - from + 1, line.len() as int) =~= chars@.subrange(
            at + 1,
            to as int,
        ));
    }
    Some(package)
}

/// Why a manifest could not be scanned.
#[derive(Clone, Copy, Debug, PartialEq, Eq, Structural)]
pub enum ScanError {
    /// The manifest has more lines than a line number can count.
    TooManyLines,
}

/// The packages that the manifest declares, in the order of their lines.
///
/// A manifest of more than `u32::MAX` lines is turned down, and no other.
pub fn get_packages(manifest: &str) -> (scanned: Result<Vec<Package>, ScanError>)
    ensures
        match scanned {
            Ok(packages) => lines(manifest@).len() <= u32::MAX && package_views(packages@)
                == manifest_packages(manifest@),
            Err(error) => lines(manifest@).len() > u32::MAX && error == ScanError::TooManyLines,
        },
        scanned is Ok ==> forall|j: int, k: int|
            0 <= j < k < scanned->Ok_0.len() ==> scanned->Ok_0[j].line < scanned->Ok_0[k].line,
{
    let chars = chars_of(manifest);
    let spans = line_spans(&chars);
    if spans.len() > u32::MAX as usize {
        return Err(ScanError::TooManyLines);
    }
    let header = chars_of("[dependencies]");
    let ghost ls = lines(chars@);
    let ghost mut h: int = 0;
    let mut packages: Vec<Package> = Vec::new();
    let mut found = false;
    let mut finished = false;
    let mut k: usize = 0;
    assert(package_views(packages@) =~= Seq::empty());
    while k < spans.len()
        invariant
            k <= spans.len() == ls.len() <= u32::MAX,
            span_texts(chars@, spans@) == ls,
            forall|i: int|
                0 <= i < spans.len() ==> (#[trigger] spans[i]).0 <= spans[i].1 <= chars.len(),
            header@ == "[dependencies]"@,
            !found ==> !finished && header_index(ls, 0) == header_index(ls, k as int)
                && package_views(packages@) == Seq::<PackageView>::empty(),
            found ==> 0 <= h < k && header_index(ls, 0) == h,
            found && !finished ==> closing_index(ls, h + 1) == closing_index(ls, k as int)
                && package_views(packages@) == declared(ls, h + 1, k as int),
            finished ==> package_views(packages@) == packages_of(ls),
        decreases spans.len() - k,
    {
        let (from, to) = spans[k];
        assert(ls[k as int] == chars@.subrange(from as int, to as int));
        if !found && section_header_at(&chars, from, to, &header) {
            found = true;
            proof {
                h = k as int;
            }
        } else if found && !finished {
            if bracketed_at(&chars, from, to) {
                finished = true;
            } else {
                let declares = declaration_at(&chars, from, to, k as u32);
                if let Some(package) = declares {
                    proof {
                        assert(package_views(packages@.push(package)) =~= package_views(
                            packages@,
                        ).push(package@));
                    }
                    packages.push(package);
                }
            }
        }
        k += 1;
    }
    proof {
        let views = manifest_packages(manifest@);
        assert(package_views(packages@) == views);
        lemma_packages_stand_in_line_order(manifest@);
        assert forall|j: int, k: int| 0 <= j < k < packages.len() implies packages[j].line
            < packages[k].line by {
            assert(views[j] == packages[j]@);
            assert(views[k] == packages[k]@);
            assert(views[j].line < views[k].line);
        }
    }
    Ok(packages)
}

} // verus!
