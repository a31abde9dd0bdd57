//! What holds of text, paths, digits, names and tables.
use crate::name::{
    FilesystemProtocol, FilesystemRuntime, KeyView, ProviderId, ResourceKind, SpecView,
};
use crate::table::Row;
use vstd::prelude::*;

verus! {

proof fn trimming_in_front(text: Seq<char>)
    ensures
        ({
            let at = crate::text::trim_from(text) as int;
            &&& 0 <= at <= text.len()
            &&& forall|i: int| 0 <= i < at ==> crate::text::is_white_space(#[trigger] text[i])
            &&& at < text.len() ==> !crate::text::is_white_space(text[at])
        }),
    decreases text.len(),
{
    if text.len() > 0 && crate::text::is_white_space(text[0]) {
        let rest = text.skip(1);
        trimming_in_front(rest);
        let at = crate::text::trim_from(text) as int;
        assert forall|i: int| 0 <= i < at implies crate::text::is_white_space(#[trigger] text[i]) by {
            if i > 0 {
                assert(rest[i - 1] == text[i]);
            }
        }
        if at < text.len() {
            assert(rest[at - 1] == text[at]);
        }
    }
}

proof fn trimming_behind(text: Seq<char>)
    ensures
        ({
            let at = crate::text::trim_to(text) as int;
            &&& 0 <= at <= text.len()
            &&& forall|i: int|
                at <= i < text.len() ==> crate::text::is_white_space(#[trigger] text[i])
            &&& at > 0 ==> !crate::text::is_white_space(text[at - 1])
        }),
    decreases text.len(),
{
    if text.len() > 0 && crate::text::is_white_space(text.last()) {
        let front = text.drop_last();
        trimming_behind(front);
        let at = crate::text::trim_to(text) as int;
        assert forall|i: int| at <= i < text.len() implies crate::text::is_white_space(
            #[trigger] text[i],
        ) by {
            if i < front.len() {
                assert(front[i] == text[i]);
            }
        }
        if at > 0 {
            assert(front[at - 1] == text[at - 1]);
        }
    }
}

/// Trimming takes off white space at both ends, all of it and nothing else.
pub proof fn trimming_takes_off_white_space_alone(text: Seq<char>)
    ensures
        ({
            let inner = crate::text::trimmed(text);
            &&& exists|from: int|
                0 <= from && from + inner.len() <= text.len() && #[trigger] text.subrange(
                    from,
                    from + inner.len(),
                ) == inner && (forall|i: int|
                    0 <= i < from ==> crate::text::is_white_space(#[trigger] text[i])) && (forall|
                    i: int,
                |
                    from + inner.len() <= i < text.len() ==> crate::text::is_white_space(
                        #[trigger] text[i],
                    ))
            &&& inner.len() > 0 ==> !crate::text::is_white_space(inner[0])
                && !crate::text::is_white_space(inner.last())
        }),
{
    trimming_in_front(text);
    let from = crate::text::trim_from(text) as int;
    let rest = text.skip(from);
    trimming_behind(rest);
    let inner = crate::text::trimmed(text);
    assert(text.subrange(from, from + inner.len()) =~= inner);
    assert forall|i: int| from + inner.len() <= i < text.len() implies
        crate::text::is_white_space(#[trigger] text[i]) by {
        assert(rest[i - from] == text[i]);
    }
    if inner.len() > 0 {
        assert(inner[0] == text[from]);
    }
}

/// Text is cut at the first occurrence of a character: the parts make the whole again,
/// and the first does not hold it.
pub proof fn text_is_cut_at_the_first_occurrence(text: Seq<char>, c: char)
    ensures
        text.contains(c) ==> crate::text::head(text, c).push(c) + crate::text::tail(text, c) =~= text,
        !text.contains(c) ==> crate::text::head(text, c) =~= text,
        !crate::text::head(text, c).contains(c),
    decreases text.len(),
{
    if text.len() > 0 && text[0] != c {
        let rest = text.skip(1);
        text_is_cut_at_the_first_occurrence(rest, c);
        let at = crate::text::first_at(rest, c);
        if text.contains(c) {
            let k = choose|k: int| 0 <= k < text.len() && text[k] == c;
            assert(rest[k - 1] == c);
        }
        if rest.contains(c) {
            let k = choose|k: int| 0 <= k < rest.len() && rest[k] == c;
            assert(text[k + 1] == c);
            let before = crate::text::head(rest, c);
            assert(0 <= at < rest.len()) by {
                assert(before.push(c) + crate::text::tail(rest, c) =~= rest);
                first_is_within(rest, c);
            }
        } else {
            first_is_within(rest, c);
        }
        first_is_within(text, c);
        let front = crate::text::head(text, c);
        assert(front =~= seq![text[0]] + crate::text::head(rest, c));
        if front.contains(c) {
            let k = choose|k: int| 0 <= k < front.len() && front[k] == c;
            assert(crate::text::head(rest, c)[k - 1] == c);
        }
        if text.contains(c) {
            assert(crate::text::tail(text, c) =~= crate::text::tail(rest, c));
            assert(text =~= seq![text[0]] + rest);
            assert(front.push(c) + crate::text::tail(text, c) =~= seq![text[0]] + (crate::text::head(
                rest,
                c,
            ).push(c) + crate::text::tail(rest, c)));
        }
    } else if text.len() > 0 {
        assert(text[0] == c);
        assert(text.take(0).push(c) + text.skip(1) =~= text);
    }
}

proof fn first_is_within(text: Seq<char>, c: char)
    ensures
        0 <= crate::text::first_at(text, c) <= text.len(),
        text.contains(c) ==> crate::text::first_at(text, c) < text.len()
            && text[crate::text::first_at(text, c)] == c,
        !text.contains(c) ==> crate::text::first_at(text, c) == text.len(),
    decreases text.len(),
{
    if text.len() > 0 && text[0] != c {
        let rest = text.skip(1);
        first_is_within(rest, c);
        if text.contains(c) {
            let k = choose|k: int| 0 <= k < text.len() && text[k] == c;
            assert(rest[k - 1] == c);
        }
        if rest.contains(c) {
            let k = choose|k: int| 0 <= k < rest.len() && rest[k] == c;
            assert(text[k + 1] == c);
        }
    } else if text.len() > 0 {
        assert(text[0] == c);
    }
}

/// An absolute path stands for itself, and a relative one stands behind its base with
/// exactly one slash between.
pub proof fn a_path_is_joined_with_one_slash(base: Seq<char>, part: Seq<char>)
    ensures
        part.len() > 0 && part[0] == '/' ==> crate::text::joined_path(base, part) == part,
        !(part.len() > 0 && part[0] == '/') && base.len() > 0 && base.last() != '/'
            ==> crate::text::joined_path(base, part) == base.push('/') + part,
        !(part.len() > 0 && part[0] == '/') && (base.len() == 0 || base.last() == '/')
            ==> crate::text::joined_path(base, part) == base + part,
{
}

proof fn the_last_slash_is_last(path: Seq<char>, at: int)
    requires
        -1 <= at < path.len(),
        at >= 0 ==> path[at] == '/',
        forall|i: int| at < i < path.len() ==> #[trigger] path[i] != '/',
    ensures
        crate::text::last_slash(path) == at,
    decreases path.len(),
{
    if at < path.len() - 1 {
        assert(path.last() != '/');
        the_last_slash_is_last(path.drop_last(), at);
    }
}

/// A path is read by its components: a slash behind it, a second one between two
/// components, and a component that stands for the same directory change nothing, and
/// a name behind it is one component more.
pub proof fn a_path_is_read_by_its_components(path: Seq<char>, name: Seq<char>)
    requires
        path.len() > 0,
        name.len() > 0,
        !name.contains('/'),
    ensures
        crate::text::path_parts(path.push('/')) == crate::text::path_parts(path),
        name != seq!['.'] ==> crate::text::path_parts(path.push('/') + name)
            == crate::text::path_parts(path).push(name),
        name == seq!['.'] ==> crate::text::path_parts(path.push('/') + name)
            == crate::text::path_parts(path),
{
    let slashed = path.push('/');
    let at = path.len() as int;
    the_last_slash_is_last(slashed, at);
    assert(slashed.take(at) =~= path);
    assert(slashed.skip(at + 1).len() == 0);
    let longer = slashed + name;
    assert forall|i: int| at < i < longer.len() implies #[trigger] longer[i] != '/' by {
        assert(longer[i] == name[i - at - 1]);
        assert(name.contains(name[i - at - 1]));
    }
    the_last_slash_is_last(longer, at);
    assert(longer.take(at) =~= path);
    assert(longer.skip(at + 1) =~= name);
}

/// Numbers are spelled digit by digit, the highest first.
pub proof fn numbers_are_spelled_digit_by_digit(value: nat, last: nat)
    requires
        last < 10,
    ensures
        crate::text::decimal_text(last) == seq![(48 + last) as char],
        value > 0 ==> crate::text::decimal_text(10 * value + last) == crate::text::decimal_text(
            value,
        ).push((48 + last) as char),
{
    assert((10 * value + last) / 10 == value);
    assert((10 * value + last) % 10 == last);
}

/// Bytes are spelled one after the other, each with its higher half first, in digits
/// that go on with letters after nine.
pub proof fn bytes_are_spelled_one_by_one(first: Seq<u8>, second: Seq<u8>, byte: u8)
    ensures
        crate::digest::hex_text(first + second) =~= crate::digest::hex_text(first)
            + crate::digest::hex_text(second),
        crate::digest::hex_text(seq![byte]).len() == 2,
        byte < 160 ==> crate::digest::hex_text(seq![byte])[0] == (48 + byte / 16) as char,
        byte >= 160 ==> crate::digest::hex_text(seq![byte])[0] == (87 + byte / 16) as char,
        byte % 16 < 10 ==> crate::digest::hex_text(seq![byte])[1] == (48 + byte % 16) as char,
        byte % 16 >= 10 ==> crate::digest::hex_text(seq![byte])[1] == (87 + byte % 16) as char,
{
    let both = crate::digest::hex_text(first + second);
    let apart = crate::digest::hex_text(first) + crate::digest::hex_text(second);
    assert forall|i: int| 0 <= i < both.len() implies both[i] == apart[i] by {
        if i >= 2 * first.len() {
            let j = i - 2 * first.len();
            assert(j % 2 == i % 2);
            assert(j / 2 == i / 2 - first.len());
        }
    }
}

/// Two declarations are the same exactly when they agree in everything, locations by
/// their components.
pub proof fn a_declaration_agrees_in_everything(a: SpecView, b: SpecView)
    ensures
        crate::name::same_spec(a, b) <==> a.protocol == b.protocol && a.runtime == b.runtime
            && crate::text::path_parts(a.location) == crate::text::path_parts(b.location)
            && a.docker_image == b.docker_image && a.libkrun_guest_image == b.libkrun_guest_image,
        crate::name::same_spec(a, a),
{
}

/// Resources are listed by kind, providers first, then credentials, mounts and
/// filesystems; within a kind by name.
pub proof fn resources_are_listed_by_kind(a: KeyView, b: KeyView)
    ensures
        a.kind == ResourceKind::Provider && b.kind != ResourceKind::Provider
            ==> crate::name::key_before(a, b),
        a.kind == ResourceKind::Credential && (b.kind == ResourceKind::Mount || b.kind
            == ResourceKind::Filesystem) ==> crate::name::key_before(a, b),
        a.kind == ResourceKind::Mount && b.kind == ResourceKind::Filesystem
            ==> crate::name::key_before(a, b),
        a.kind == b.kind ==> crate::name::key_before(a, b) == crate::order::text_before(
            a.name,
            b.name,
        ),
{
}

/// Of two artifacts exactly one is listed first, unless they are the same.
pub proof fn artifacts_are_listed_by_digest(a: ProviderId, b: ProviderId)
    ensures
        a.before(b) <==> a.high < b.high || (a.high == b.high && a.low < b.low),
        a != b <==> a.before(b) || b.before(a),
{
}

/// Protocols and runtimes are spelled as they are declared.
pub proof fn a_declaration_is_spelled_as_it_is()
    ensures
        FilesystemProtocol::Fuse.spelling() == "fuse"@,
        FilesystemProtocol::Nfs.spelling() == "nfs"@,
        FilesystemRuntime::Host.spelling() == "host"@,
        FilesystemRuntime::Docker.spelling() == "docker"@,
        FilesystemRuntime::Libkrun.spelling() == "libkrun"@,
{
}

/// A name stands for the last value that was filed under it, and for none where none
/// was.
pub proof fn a_name_stands_for_its_last_entry<V>(rows: Seq<Row<V>>, at: int, name: Seq<char>)
    ensures
        0 <= at < rows.len() && rows[at].name@ == name && (forall|j: int|
            at < j < rows.len() ==> (#[trigger] rows[j]).name@ != name)
            ==> crate::table::filed_under(rows).contains_key(name) && crate::table::filed_under(
            rows,
        )[name] == rows[at].value,
        (forall|j: int| 0 <= j < rows.len() ==> (#[trigger] rows[j]).name@ != name)
            ==> !crate::table::filed_under(rows).contains_key(name),
    decreases rows.len(),
{
    if rows.len() > 0 {
        let front = rows.drop_last();
        a_name_stands_for_its_last_entry(front, at, name);
        assert(forall|j: int| 0 <= j < front.len() ==> front[j] == #[trigger] rows[j]);
        if (forall|j: int| 0 <= j < rows.len() ==> (#[trigger] rows[j]).name@ != name) {
            assert(rows[rows.len() - 1].name@ != name);
            assert forall|j: int| 0 <= j < front.len() implies (#[trigger] front[j]).name@ != name by {
                assert(front[j] == rows[j]);
            }
        }
        if 0 <= at < rows.len() - 1 && rows[at].name@ == name && (forall|j: int|
            at < j < rows.len() ==> (#[trigger] rows[j]).name@ != name) {
            assert(rows[rows.len() - 1].name@ != name);
            assert forall|j: int| at < j < front.len() implies (#[trigger] front[j]).name@ != name by {
                assert(front[j] == rows[j]);
            }
            assert(front[at] == rows[at]);
        }
    }
}

} // verus!
