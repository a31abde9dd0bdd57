//! The seed that a guest boots from: one file of exactly the expected keys.
use crate::fs_runtime::docker::OMNIFS_ATTACH_ADDR_ENV;
use crate::name::{FilesystemSpec, ResourceName, SpecView};
use crate::text::{
    chars_of, concat, concat3, decimal, listed, push_text, same_text, slice, split_once, trim,
};
use vstd::prelude::*;
use vstd::string::*;

verus! {

/// The guest port that the daemon's attach listener is reached through.
pub const ATTACH_VSOCK_PORT: u64 = 1024;

/// The guest port that readiness is told through.
pub const READY_VSOCK_PORT: u64 = 1025;

/// The name of the one file of a seed.
pub const SEED_CONF_NAME: &'static str = "omnifs-seed.conf";

/// The label of the volume that carries a seed.
pub const SEED_VOLUME_LABEL: &'static str = "OMNIFS-SEED";

/// The keys of a seed.
pub open spec fn seed_keys() -> Seq<Seq<char>> {
    seq![
        OMNIFS_ATTACH_ADDR_ENV@,
        "OMNIFS_FILESYSTEM_NAME"@,
        "OMNIFS_RUNTIME_INSTANCE"@,
        "OMNIFS_LIBKRUN_GUEST_IMAGE"@,
        "OMNIFS_READY_VSOCK_PORT"@,
        "OMNIFS_SSH_PUBKEY"@,
    ]
}

fn expected_keys() -> (keys: Vec<String>)
    ensures
        crate::text::texts(keys@) == seed_keys(),
{
    let mut keys: Vec<String> = Vec::new();
    push_text(&mut keys, OMNIFS_ATTACH_ADDR_ENV);
    push_text(&mut keys, "OMNIFS_FILESYSTEM_NAME");
    push_text(&mut keys, "OMNIFS_RUNTIME_INSTANCE");
    push_text(&mut keys, "OMNIFS_LIBKRUN_GUEST_IMAGE");
    push_text(&mut keys, "OMNIFS_READY_VSOCK_PORT");
    push_text(&mut keys, "OMNIFS_SSH_PUBKEY");
    assert(crate::text::texts(keys@) =~= seed_keys());
    keys
}

/// The values of a seed, in the order of its keys.
pub open spec fn seed_values(
    filesystem: Seq<char>,
    spec: SpecView,
    runtime_instance: Seq<char>,
    ssh_pubkey: Seq<char>,
) -> Seq<Seq<char>> {
    seq![
        "vsock:"@ + crate::text::decimal_text(ATTACH_VSOCK_PORT as nat),
        filesystem,
        runtime_instance,
        match spec.libkrun_guest_image {
            Some(image) => image,
            None => Seq::empty(),
        },
        crate::text::decimal_text(READY_VSOCK_PORT as nat),
        ssh_pubkey,
    ]
}

/// Keys and values, one pair to a line.
pub open spec fn pairs_text(keys: Seq<Seq<char>>, values: Seq<Seq<char>>) -> Seq<char>
    decreases keys.len(),
{
    if keys.len() == 0 {
        Seq::empty()
    } else {
        pairs_text(keys.drop_last(), values.drop_last()) + keys.last() + "="@ + values.last()
            + "\n"@
    }
}

/// The text of a seed.
pub open spec fn seed_text(
    filesystem: Seq<char>,
    spec: SpecView,
    runtime_instance: Seq<char>,
    ssh_pubkey: Seq<char>,
) -> Seq<char> {
    pairs_text(seed_keys(), seed_values(filesystem, spec, runtime_instance, ssh_pubkey))
}

/// Writes the text of a seed.
pub fn seed_conf(
    filesystem: &ResourceName,
    spec: &FilesystemSpec,
    runtime_instance: &str,
    ssh_pubkey: &str,
) -> (text: String)
    ensures
        text@ == seed_text(filesystem@, spec@, runtime_instance@, ssh_pubkey@),
{
    let keys = expected_keys();
    let mut values: Vec<String> = Vec::new();
    push_text(&mut values, concat("vsock:", decimal(ATTACH_VSOCK_PORT).as_str()).as_str());
    push_text(&mut values, filesystem.as_str());
    push_text(&mut values, runtime_instance);
    match &spec.libkrun_guest_image {
        Some(image) => push_text(&mut values, image.as_str()),
        None => {
            let none = String::new();
            assert(none@ =~= Seq::<char>::empty());
            push_text(&mut values, none.as_str());
        },
    }
    push_text(&mut values, decimal(READY_VSOCK_PORT).as_str());
    push_text(&mut values, ssh_pubkey);
    let ghost all_keys = seed_keys();
    let ghost all_values = seed_values(filesystem@, spec@, runtime_instance@, ssh_pubkey@);
    assert(crate::text::texts(values@) =~= all_values);
    assert(crate::text::texts(keys@).len() == keys@.len());
    let mut text = String::new();
    let mut i: usize = 0;
    assert(text@ =~= pairs_text(all_keys.take(0), all_values.take(0)));
    while i < keys.len()
        invariant
            i <= keys@.len(),
            keys@.len() == values@.len(),
            crate::text::texts(keys@) == all_keys,
            crate::text::texts(values@) == all_values,
            text@ == pairs_text(all_keys.take(i as int), all_values.take(i as int)),
        decreases keys@.len() - i,
    {
        proof {
            assert(all_keys.take(i + 1).drop_last() =~= all_keys.take(i as int));
            assert(all_values.take(i + 1).drop_last() =~= all_values.take(i as int));
            assert(all_keys[i as int] == keys@[i as int]@);
            assert(all_values[i as int] == values@[i as int]@);
        }
        text.append(keys[i].as_str());
        text.append("=");
        text.append(values[i].as_str());
        text.append("\n");
        i = i + 1;
    }
    proof {
        assert(all_keys.take(i as int) =~= all_keys);
        assert(all_values.take(i as int) =~= all_values);
    }
    text
}

/// A line without the carriage return it may end in.
pub open spec fn chomped(line: Seq<char>) -> Seq<char> {
    if line.len() > 0 && line.last() == '\r' {
        line.drop_last()
    } else {
        line
    }
}

/// The lines of a text.
pub open spec fn lines_of(text: Seq<char>) -> Seq<Seq<char>>
    decreases text.len(),
{
    if text.len() == 0 {
        Seq::empty()
    } else if !text.contains('\n') {
        seq![text]
    } else {
        proof {
            tail_is_shorter(text);
        }
        seq![chomped(crate::text::head(text, '\n'))] + lines_of(crate::text::tail(text, '\n'))
    }
}

/// What follows a line break is shorter than the text.
pub proof fn tail_is_shorter(text: Seq<char>)
    requires
        text.contains('\n'),
    ensures
        crate::text::tail(text, '\n').len() < text.len(),
        0 <= crate::text::first_at(text, '\n') < text.len(),
    decreases text.len(),
{
    if text[0] != '\n' {
        let rest = text.skip(1);
        let k = choose|k: int| 0 <= k < text.len() && text[k] == '\n';
        assert(rest[k - 1] == '\n');
        tail_is_shorter(rest);
    }
}

/// The lines of a text.
pub fn lines(text: &str) -> (lines: Vec<String>)
    ensures
        crate::text::texts(lines@) == lines_of(text@),
{
    let mut lines: Vec<String> = Vec::new();
    let mut rest = text.to_owned();
    assert(crate::text::texts(lines@) + lines_of(rest@) =~= lines_of(text@));
    loop
        invariant
            crate::text::texts(lines@) + lines_of(rest@) == lines_of(text@),
        decreases rest@.len(),
    {
        match split_once(rest.as_str(), '\n') {
            None => {
                if rest.as_str().is_empty() {
                    assert(crate::text::texts(lines@) + lines_of(rest@) =~= crate::text::texts(
                        lines@,
                    ));
                    return lines;
                }
                let ghost before = crate::text::texts(lines@);
                push_text(&mut lines, rest.as_str());
                assert(before + lines_of(rest@) =~= before.push(rest@));
                return lines;
            },
            Some((line, after)) => {
                proof {
                    tail_is_shorter(rest@);
                }
                let chars = chars_of(line.as_str());
                let shown = if chars.len() > 0 && chars[chars.len() - 1] == '\r' {
                    slice(&chars, 0, chars.len() - 1)
                } else {
                    line
                };
                let ghost before = crate::text::texts(lines@);
                assert(shown@ =~= chomped(crate::text::head(rest@, '\n')));
                push_text(&mut lines, shown.as_str());
                assert(before + lines_of(rest@) =~= crate::text::texts(lines@) + lines_of(after@));
                rest = after;
            },
        }
    }
}

/// The key of a line.
pub open spec fn key_of(line: Seq<char>) -> Seq<char> {
    crate::text::head(line, '=')
}

/// Whether a line of this key is among some.
pub open spec fn has_key(lines: Seq<Seq<char>>, key: Seq<char>) -> bool {
    exists|j: int| 0 <= j < lines.len() && key_of(#[trigger] lines[j]) == key
}

/// The first thing that is wrong with the lines of a seed, if anything is.
pub open spec fn line_violation(lines: Seq<Seq<char>>) -> Option<Seq<char>>
    decreases lines.len(),
{
    if lines.len() == 0 {
        None
    } else {
        match line_violation(lines.drop_last()) {
            Some(violation) => Some(violation),
            None => {
                let line = lines.last();
                if !line.contains('=') {
                    Some("malformed seed line (no `=`): `"@ + line + "`"@)
                } else if !seed_keys().contains(key_of(line)) {
                    Some("unexpected seed key `"@ + key_of(line) + "`"@)
                } else if has_key(lines.drop_last(), key_of(line)) {
                    Some("duplicate seed key `"@ + key_of(line) + "`"@)
                } else {
                    None
                }
            },
        }
    }
}

/// The first of some keys that no line has, if there is one.
pub open spec fn missing_key(lines: Seq<Seq<char>>, keys: Seq<Seq<char>>) -> Option<Seq<char>>
    decreases keys.len(),
{
    if keys.len() == 0 {
        None
    } else if !has_key(lines, keys[0]) {
        Some(keys[0])
    } else {
        missing_key(lines, keys.skip(1))
    }
}

/// What is wrong with a seed, if anything is.
pub open spec fn seed_violation(files: Seq<Seq<char>>, contents: Seq<char>) -> Option<Seq<char>> {
    if files.len() != 1 {
        Some(
            "seed staging dir must contain exactly one file, found "@ + crate::text::decimal_text(
                files.len(),
            ),
        )
    } else if files[0] != SEED_CONF_NAME@ {
        Some("unexpected seed staging file `"@ + files[0] + "`"@)
    } else {
        let lines = lines_of(contents);
        match line_violation(lines) {
            Some(violation) => Some(violation),
            None => match missing_key(lines, seed_keys()) {
                Some(key) => Some("seed is missing required key `"@ + key + "`"@),
                None => None,
            },
        }
    }
}

proof fn a_violation_stays(lines: Seq<Seq<char>>, i: int)
    requires
        0 <= i <= lines.len(),
        line_violation(lines.take(i)) is Some,
    ensures
        line_violation(lines) == line_violation(lines.take(i)),
    decreases lines.len() - i,
{
    if i < lines.len() {
        assert(lines.take(i + 1).drop_last() =~= lines.take(i));
        a_violation_stays(lines, i + 1);
    } else {
        assert(lines.take(i) =~= lines);
    }
}

/// Where the keys of all lines are known, a key is among them just when a line
/// has it.
proof fn keys_are_known(seen: Seq<Seq<char>>, lines: Seq<Seq<char>>, key: Seq<char>)
    requires
        seen.len() == lines.len(),
        forall|j: int| 0 <= j < lines.len() ==> #[trigger] seen[j] == key_of(lines[j]),
    ensures
        seen.contains(key) == has_key(lines, key),
{
    if seen.contains(key) {
        let j = choose|j: int| 0 <= j < seen.len() && seen[j] == key;
        assert(key_of(lines[j]) == key);
    }
    if has_key(lines, key) {
        let j = choose|j: int| 0 <= j < lines.len() && key_of(#[trigger] lines[j]) == key;
        assert(seen[j] == key);
    }
}

/// Audits a seed before it is burned, by the files that were staged and the
/// contents of the first.
pub fn audit_seed_staging(files: &Vec<String>, contents: &str) -> (audited: Result<(), String>)
    ensures
        match audited {
            Ok(_) => seed_violation(crate::text::texts(files@), contents@) is None,
            Err(text) => seed_violation(crate::text::texts(files@), contents@) == Some(text@),
        },
{
    if files.len() != 1 {
        return Err(
            concat(
                "seed staging dir must contain exactly one file, found ",
                decimal(files.len() as u64).as_str(),
            ),
        );
    }
    assert(crate::text::texts(files@)[0] == files@[0]@);
    if !same_text(files[0].as_str(), SEED_CONF_NAME) {
        return Err(concat3("unexpected seed staging file `", files[0].as_str(), "`"));
    }
    let expected = expected_keys();
    let rows = lines(contents);
    let ghost all = crate::text::texts(rows@);
    let mut seen: Vec<String> = Vec::new();
    let mut i: usize = 0;
    assert(all.take(0) =~= Seq::empty());
    while i < rows.len()
        invariant
            i <= rows@.len(),
            files@.len() == 1,
            crate::text::texts(files@)[0] == SEED_CONF_NAME@,
            crate::text::texts(expected@) == seed_keys(),
            all == crate::text::texts(rows@),
            all == lines_of(contents@),
            line_violation(all.take(i as int)) is None,
            seen@.len() == i,
            forall|j: int| 0 <= j < i ==> #[trigger] crate::text::texts(seen@)[j] == key_of(all[j]),
        decreases rows@.len() - i,
    {
        let ghost before = all.take(i as int);
        let ghost next = all.take(i + 1);
        proof {
            assert(next.drop_last() =~= before);
            assert(next.last() == rows@[i as int]@);
            if line_violation(next) is Some {
                a_violation_stays(all, i + 1);
            }
        }
        match split_once(rows[i].as_str(), '=') {
            None => {
                return Err(concat3("malformed seed line (no `=`): `", rows[i].as_str(), "`"));
            },
            Some((key, _)) => {
                if !listed(&expected, key.as_str()) {
                    return Err(concat3("unexpected seed key `", key.as_str(), "`"));
                }
                proof {
                    keys_are_known(crate::text::texts(seen@), before, key@);
                }
                if listed(&seen, key.as_str()) {
                    return Err(concat3("duplicate seed key `", key.as_str(), "`"));
                }
                push_text(&mut seen, key.as_str());
            },
        }
        i = i + 1;
    }
    assert(all.take(i as int) =~= all);
    let ghost keys = seed_keys();
    let mut k: usize = 0;
    assert(keys.skip(0) =~= keys);
    while k < expected.len()
        invariant
            k <= expected@.len(),
            files@.len() == 1,
            crate::text::texts(files@)[0] == SEED_CONF_NAME@,
            keys == seed_keys(),
            crate::text::texts(expected@) == keys,
            all == lines_of(contents@),
            line_violation(all) is None,
            seen@.len() == all.len(),
            forall|j: int|
                0 <= j < all.len() ==> #[trigger] crate::text::texts(seen@)[j] == key_of(all[j]),
            missing_key(all, keys) == missing_key(all, keys.skip(k as int)),
        decreases expected@.len() - k,
    {
        proof {
            assert(keys[k as int] == expected@[k as int]@);
            assert(keys.skip(k as int)[0] == keys[k as int]);
            assert(keys.skip(k as int).skip(1) =~= keys.skip(k + 1));
            keys_are_known(crate::text::texts(seen@), all, keys[k as int]);
        }
        if !listed(&seen, expected[k].as_str()) {
            return Err(concat3("seed is missing required key `", expected[k].as_str(), "`"));
        }
        k = k + 1;
    }
    Ok(())
}

/// Lines that are complete can be read apart from what follows them.
proof fn lines_in_a_row(a: Seq<char>, b: Seq<char>)
    requires
        a.len() == 0 || a.last() == '\n',
    ensures
        lines_of(a + b) == lines_of(a) + lines_of(b),
    decreases a.len(),
{
    if a.len() == 0 {
        assert(a + b =~= b);
        assert(lines_of(a) + lines_of(b) =~= lines_of(b));
    } else {
        assert(a[a.len() - 1] == '\n');
        tail_is_shorter(a);
        let at = crate::text::first_at(a, '\n');
        first_line_ends(a);
        assert forall|j: int| 0 <= j < at implies #[trigger] (a + b)[j] != '\n' by {
            assert((a + b)[j] == a[j]);
        }
        crate::text::first_at_is_first(a + b, '\n', at);
        let rest = crate::text::tail(a, '\n');
        assert(crate::text::head(a + b, '\n') =~= crate::text::head(a, '\n'));
        assert(crate::text::tail(a + b, '\n') =~= rest + b);
        if rest.len() > 0 {
            assert(rest.last() == a.last());
        }
        lines_in_a_row(rest, b);
        let first = seq![chomped(crate::text::head(a, '\n'))];
        assert(first + (lines_of(rest) + lines_of(b)) =~= (first + lines_of(rest)) + lines_of(b));
    }
}

/// The first line break is one, and there is none before it.
proof fn first_line_ends(text: Seq<char>)
    requires
        text.contains('\n'),
    ensures
        ({
            let at = crate::text::first_at(text, '\n');
            0 <= at < text.len() && text[at] == '\n' && forall|j: int|
                0 <= j < at ==> #[trigger] text[j] != '\n'
        }),
    decreases text.len(),
{
    if text[0] != '\n' {
        let rest = text.skip(1);
        let k = choose|k: int| 0 <= k < text.len() && text[k] == '\n';
        assert(rest[k - 1] == '\n');
        first_line_ends(rest);
        let at = crate::text::first_at(rest, '\n');
        assert forall|j: int| 0 <= j < at + 1 implies #[trigger] text[j] != '\n' by {
            if j > 0 {
                assert(text[j] == rest[j - 1]);
            }
        }
        assert(text[at + 1] == rest[at]);
    }
}

/// Whether a text is on one line.
pub open spec fn is_one_line(text: Seq<char>) -> bool {
    forall|i: int| 0 <= i < text.len() ==> #[trigger] text[i] != '\n'
}

/// A key and a value on one line.
pub open spec fn pair_line(key: Seq<char>, value: Seq<char>) -> Seq<char> {
    key + "="@ + value
}

/// What the audit reads of pairs that stand on one line each.
pub open spec fn pair_lines(keys: Seq<Seq<char>>, values: Seq<Seq<char>>) -> Seq<Seq<char>> {
    Seq::new(keys.len(), |i: int| chomped(pair_line(keys[i], values[i])))
}

proof fn pairs_are_read(keys: Seq<Seq<char>>, values: Seq<Seq<char>>)
    requires
        keys.len() == values.len(),
        forall|i: int| 0 <= i < keys.len() ==> is_one_line(#[trigger] keys[i]),
        forall|i: int| 0 <= i < values.len() ==> is_one_line(#[trigger] values[i]),
    ensures
        lines_of(pairs_text(keys, values)) == pair_lines(keys, values),
        pairs_text(keys, values).len() == 0 || pairs_text(keys, values).last() == '\n',
    decreases keys.len(),
{
    reveal_strlit("=");
    reveal_strlit("\n");
    if keys.len() == 0 {
        assert(pair_lines(keys, values) =~= Seq::<Seq<char>>::empty());
    } else {
        let first = pairs_text(keys.drop_last(), values.drop_last());
        pairs_are_read(keys.drop_last(), values.drop_last());
        let key = keys[keys.len() - 1];
        let value = values[values.len() - 1];
        let line = pair_line(key, value);
        assert(is_one_line(line)) by {
            assert forall|i: int| 0 <= i < line.len() implies #[trigger] line[i] != '\n' by {
                if i < key.len() {
                    assert(line[i] == key[i]);
                } else if i > key.len() {
                    assert(line[i] == value[i - key.len() - 1]);
                }
            }
        }
        let last = line + "\n"@;
        assert(pairs_text(keys, values) =~= first + last);
        lines_in_a_row(first, last);
        assert forall|j: int| 0 <= j < line.len() implies #[trigger] last[j] != '\n' by {
            assert(last[j] == line[j]);
        }
        assert(last[line.len() as int] == '\n');
        crate::text::first_at_is_first(last, '\n', line.len() as int);
        assert(crate::text::head(last, '\n') =~= line);
        assert(crate::text::tail(last, '\n') =~= Seq::<char>::empty());
        assert(lines_of(Seq::<char>::empty()) =~= Seq::<Seq<char>>::empty());
        assert(last.contains('\n'));
        assert(lines_of(last) =~= seq![chomped(line)]);
        assert(pair_lines(keys, values) =~= pair_lines(keys.drop_last(), values.drop_last())
            + seq![chomped(line)]);
    }
}

proof fn a_pair_has_its_key(key: Seq<char>, value: Seq<char>)
    requires
        forall|i: int| 0 <= i < key.len() ==> #[trigger] key[i] != '=',
    ensures
        chomped(pair_line(key, value)).contains('='),
        key_of(chomped(pair_line(key, value))) == key,
{
    reveal_strlit("=");
    let line = pair_line(key, value);
    let read = chomped(line);
    let at = key.len() as int;
    assert(line[at] == '=');
    assert(read.len() > at) by {
        if line.last() == '\r' {
            assert(line[line.len() - 1] == '\r');
        }
    }
    assert(read[at] == '=');
    assert forall|j: int| 0 <= j < at implies #[trigger] read[j] != '=' by {
        assert(read[j] == key[j]);
    }
    crate::text::first_at_is_first(read, '=', at);
    assert(crate::text::head(read, '=') =~= key);
}

proof fn the_keys_are_distinct_and_plain()
    ensures
        forall|i: int| 0 <= i < seed_keys().len() ==> is_one_line(#[trigger] seed_keys()[i]),
        forall|i: int, k: int|
            0 <= i < seed_keys().len() && 0 <= k < seed_keys()[i].len()
                ==> #[trigger] seed_keys()[i][k] != '=',
        forall|i: int, j: int|
            #![trigger seed_keys()[i], seed_keys()[j]]
            0 <= i < j < seed_keys().len() ==> seed_keys()[i] != seed_keys()[j],
{
    reveal_strlit("OMNIFS_ATTACH_ADDR");
    reveal_strlit("OMNIFS_FILESYSTEM_NAME");
    reveal_strlit("OMNIFS_RUNTIME_INSTANCE");
    reveal_strlit("OMNIFS_LIBKRUN_GUEST_IMAGE");
    reveal_strlit("OMNIFS_READY_VSOCK_PORT");
    reveal_strlit("OMNIFS_SSH_PUBKEY");
    let keys = seed_keys();
    assert(keys[0].len() == 18 && keys[1].len() == 22 && keys[2].len() == 23 && keys[3].len() == 26
        && keys[4].len() == 23 && keys[5].len() == 17);
    assert(keys[2][8] == 'U' && keys[4][8] == 'E');
}

proof fn pairs_pass(keys: Seq<Seq<char>>, values: Seq<Seq<char>>)
    requires
        keys.len() == values.len(),
        forall|i: int| 0 <= i < keys.len() ==> seed_keys().contains(#[trigger] keys[i]),
        forall|i: int, k: int|
            0 <= i < keys.len() && 0 <= k < keys[i].len() ==> #[trigger] keys[i][k] != '=',
        forall|i: int, j: int|
            #![trigger keys[i], keys[j]]
            0 <= i < j < keys.len() ==> keys[i] != keys[j],
    ensures
        line_violation(pair_lines(keys, values)) is None,
        forall|i: int| 0 <= i < keys.len() ==> has_key(pair_lines(keys, values), #[trigger] keys[i]),
    decreases keys.len(),
{
    let all = pair_lines(keys, values);
    assert forall|i: int| 0 <= i < keys.len() implies has_key(all, #[trigger] keys[i]) by {
        assert(forall|k: int| 0 <= k < keys[i].len() ==> #[trigger] keys[i][k] != '=');
        a_pair_has_its_key(keys[i], values[i]);
        assert(key_of(all[i]) == keys[i]);
    }
    if keys.len() > 0 {
        let rest_keys = keys.drop_last();
        let rest_values = values.drop_last();
        let rest = pair_lines(rest_keys, rest_values);
        assert forall|i: int, k: int|
            0 <= i < rest_keys.len() && 0 <= k < rest_keys[i].len() implies
            #[trigger] rest_keys[i][k] != '=' by {
            assert(keys[i][k] != '=');
        }
        pairs_pass(rest_keys, rest_values);
        assert(all.drop_last() =~= rest);
        let last = keys.len() - 1;
        let key = keys[last];
        assert(forall|k: int| 0 <= k < key.len() ==> #[trigger] keys[last][k] != '=');
        a_pair_has_its_key(key, values[last]);
        assert(all.last() == chomped(pair_line(key, values[last])));
        assert(!has_key(rest, key)) by {
            if has_key(rest, key) {
                let j = choose|j: int| 0 <= j < rest.len() && key_of(#[trigger] rest[j]) == key;
                assert(forall|k: int| 0 <= k < keys[j].len() ==> #[trigger] keys[j][k] != '=');
                a_pair_has_its_key(keys[j], values[j]);
                assert(rest[j] == chomped(pair_line(keys[j], values[j])));
                assert(keys[j] == key);
            }
        }
    }
}

proof fn nothing_is_missing(lines: Seq<Seq<char>>, keys: Seq<Seq<char>>)
    requires
        forall|i: int| 0 <= i < keys.len() ==> has_key(lines, #[trigger] keys[i]),
    ensures
        missing_key(lines, keys) is None,
    decreases keys.len(),
{
    if keys.len() > 0 {
        let rest = keys.skip(1);
        assert forall|i: int| 0 <= i < rest.len() implies has_key(lines, #[trigger] rest[i]) by {
            assert(rest[i] == keys[i + 1]);
        }
        nothing_is_missing(lines, rest);
    }
}

/// The seed of a launch passes its own audit, as long as none of its values
/// breaks a line.
pub proof fn a_written_seed_passes_its_audit(
    filesystem: Seq<char>,
    spec: SpecView,
    runtime_instance: Seq<char>,
    ssh_pubkey: Seq<char>,
)
    requires
        is_one_line(filesystem),
        is_one_line(runtime_instance),
        is_one_line(ssh_pubkey),
        spec.libkrun_guest_image matches Some(image) ==> is_one_line(image),
    ensures
        seed_violation(
            seq![SEED_CONF_NAME@],
            seed_text(filesystem, spec, runtime_instance, ssh_pubkey),
        ) is None,
{
    let keys = seed_keys();
    let values = seed_values(filesystem, spec, runtime_instance, ssh_pubkey);
    the_keys_are_distinct_and_plain();
    reveal_strlit("vsock:");
    crate::text::decimal_holds_digits(ATTACH_VSOCK_PORT as nat);
    crate::text::decimal_holds_digits(READY_VSOCK_PORT as nat);
    assert forall|i: int| 0 <= i < values.len() implies is_one_line(#[trigger] values[i]) by {
        if i == 0 {
            let port = crate::text::decimal_text(ATTACH_VSOCK_PORT as nat);
            assert forall|k: int| 0 <= k < values[0].len() implies #[trigger] values[0][k]
                != '\n' by {
                if k >= 6 {
                    assert(values[0][k] == port[k - 6]);
                }
            }
        }
    }
    pairs_are_read(keys, values);
    assert forall|i: int| 0 <= i < keys.len() implies seed_keys().contains(#[trigger] keys[i]) by {}
    pairs_pass(keys, values);
    nothing_is_missing(pair_lines(keys, values), keys);
}

/// What is told of a seed disk that could not be made, given how the tool
/// ended and what it said.
pub fn seed_failure(status: &str, said: &str) -> (text: String)
    ensures
        text@ == "hdiutil makehybrid exited with "@ + status@ + (if crate::text::trimmed(
            said@,
        ).len() == 0 {
            ""@
        } else {
            ": "@ + crate::text::trimmed(said@)
        }),
{
    let text = concat("hdiutil makehybrid exited with ", status);
    let detail = trim(said);
    if detail.as_str().is_empty() {
        proof {
            reveal_strlit("");
            assert(text@ + ""@ =~= text@);
        }
        text
    } else {
        let detail = concat(": ", detail.as_str());
        concat(text.as_str(), detail.as_str())
    }
}

} // verus!
