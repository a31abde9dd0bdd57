//! The audit of a container that was just started: it holds no mounts, and
//! its environment is the attach address and the image's own defaults.
use crate::fs_runtime::docker::OMNIFS_ATTACH_ADDR_ENV;
use crate::text::{concat, concat3, decimal, listed, same_text, split_once};
use vstd::prelude::*;

verus! {

/// A number of things, in words.
pub open spec fn count_text(value: nat, noun: Seq<char>) -> Seq<char> {
    if value == 1 {
        "1 "@ + noun
    } else {
        crate::text::decimal_text(value) + " "@ + noun + "s"@
    }
}

/// A number of things, in words.
pub fn count(value: usize, noun: &str) -> (words: String)
    ensures
        words@ == count_text(value as nat, noun@),
{
    if value == 1 {
        return concat("1 ", noun);
    }
    let words = concat3(decimal(value as u64).as_str(), " ", noun);
    concat(words.as_str(), "s")
}

/// The name of a variable.
pub open spec fn name_of(var: Seq<char>) -> Seq<char> {
    crate::text::head(var, '=')
}

/// Whether a filesystem container may have a variable: the attach address, or
/// one that its image sets.
pub open spec fn is_allowed(var: Seq<char>) -> bool {
    var.contains('=') && (name_of(var) == OMNIFS_ATTACH_ADDR_ENV@ || name_of(var) == "PATH"@
        || name_of(var) == "HOME"@)
}

/// The name of a variable that a filesystem container may have.
fn allowed_name(var: &str) -> (name: Option<String>)
    ensures
        match name {
            Some(name) => is_allowed(var@) && name@ == name_of(var@),
            None => !is_allowed(var@),
        },
{
    match split_once(var, '=') {
        None => None,
        Some((name, _)) => if same_text(name.as_str(), OMNIFS_ATTACH_ADDR_ENV) || same_text(
            name.as_str(),
            "PATH",
        ) || same_text(name.as_str(), "HOME") {
            Some(name)
        } else {
            None
        },
    }
}

/// Whether a filesystem container may have a variable.
pub fn env_var_allowed(var: &str) -> (allowed: bool)
    ensures
        allowed == is_allowed(var@),
{
    allowed_name(var).is_some()
}

/// Whether a variable of this name is among some.
pub open spec fn has_name(env: Seq<Seq<char>>, name: Seq<char>) -> bool {
    exists|j: int| 0 <= j < env.len() && name_of(#[trigger] env[j]) == name
}

/// The first thing that is wrong with an environment, if anything is.
pub open spec fn env_violation(env: Seq<Seq<char>>) -> Option<Seq<char>>
    decreases env.len(),
{
    if env.len() == 0 {
        None
    } else {
        match env_violation(env.drop_last()) {
            Some(violation) => Some(violation),
            None => {
                let var = env.last();
                if !is_allowed(var) {
                    Some(
                        "filesystem container has unexpected env var `"@ + var
                            + "`; the no-credentials contract allows only "@
                            + OMNIFS_ATTACH_ADDR_ENV@ + " and the image's own defaults"@,
                    )
                } else if has_name(env.drop_last(), name_of(var)) {
                    Some(
                        "filesystem container has duplicate env var `"@ + name_of(var) + "`"@,
                    )
                } else {
                    None
                }
            },
        }
    }
}

/// What is wrong with a container, if anything is.
pub open spec fn violation(mounts: nat, env: Seq<Seq<char>>) -> Option<Seq<char>> {
    if mounts > 0 {
        Some(
            "filesystem container has "@ + count_text(mounts, "mount"@)
                + "; the no-credentials contract allows none"@,
        )
    } else {
        match env_violation(env) {
            Some(violation) => Some(violation),
            None => if has_name(env, OMNIFS_ATTACH_ADDR_ENV@) {
                None
            } else {
                Some(
                    "filesystem container is missing required env var `"@
                        + OMNIFS_ATTACH_ADDR_ENV@ + "`"@,
                )
            },
        }
    }
}

proof fn a_violation_stays(env: Seq<Seq<char>>, i: int)
    requires
        0 <= i <= env.len(),
        env_violation(env.take(i)) is Some,
    ensures
        env_violation(env) == env_violation(env.take(i)),
    decreases env.len() - i,
{
    if i < env.len() {
        assert(env.take(i + 1).drop_last() =~= env.take(i));
        a_violation_stays(env, i + 1);
    } else {
        assert(env.take(i) =~= env);
    }
}

/// Audits a container that was just started, by the number of its mounts and
/// its environment.
pub fn assert_locked_down(mounts: usize, env: &Vec<String>) -> (locked: Result<(), String>)
    ensures
        match locked {
            Ok(_) => violation(mounts as nat, crate::text::texts(env@)) is None,
            Err(text) => violation(mounts as nat, crate::text::texts(env@)) == Some(text@),
        },
{
    if mounts > 0 {
        let words = count(mounts, "mount");
        return Err(
            concat3(
                "filesystem container has ",
                words.as_str(),
                "; the no-credentials contract allows none",
            ),
        );
    }
    let ghost all = crate::text::texts(env@);
    let mut names: Vec<String> = Vec::new();
    let mut i: usize = 0;
    assert(all.take(0) =~= Seq::empty());
    while i < env.len()
        invariant
            i <= env@.len(),
            mounts == 0,
            all == crate::text::texts(env@),
            env_violation(all.take(i as int)) is None,
            names@.len() == i,
            forall|j: int| 0 <= j < i ==> (#[trigger] names@[j])@ == name_of(all[j]),
        decreases env@.len() - i,
    {
        let ghost before = all.take(i as int);
        let ghost next = all.take(i + 1);
        proof {
            assert(next.drop_last() =~= before);
            assert(next.last() == env@[i as int]@);
        }
        match allowed_name(env[i].as_str()) {
            None => {
                proof {
                    a_violation_stays(all, i + 1);
                }
                let mut text = concat3(
                    "filesystem container has unexpected env var `",
                    env[i].as_str(),
                    "`; the no-credentials contract allows only ",
                );
                let text = concat3(
                    text.as_str(),
                    OMNIFS_ATTACH_ADDR_ENV,
                    " and the image's own defaults",
                );
                return Err(text);
            },
            Some(name) => {
                let duplicate = listed(&names, name.as_str());
                assert(duplicate == has_name(before, name@)) by {
                    let known = crate::text::texts(names@);
                    if duplicate {
                        let j = choose|j: int| 0 <= j < known.len() && known[j] == name@;
                        assert(known[j] == names@[j]@);
                        assert(name_of(before[j]) == name@);
                    }
                    if has_name(before, name@) {
                        let j = choose|j: int|
                            0 <= j < before.len() && name_of(#[trigger] before[j]) == name@;
                        assert(names@[j]@ == name_of(all[j]));
                        assert(known[j] == name@);
                    }
                }
                if duplicate {
                    proof {
                        a_violation_stays(all, i + 1);
                    }
                    return Err(
                        concat3(
                            "filesystem container has duplicate env var `",
                            name.as_str(),
                            "`",
                        ),
                    );
                }
                names.push(name);
            },
        }
        i = i + 1;
    }
    assert(all.take(i as int) =~= all);
    let attached = listed(&names, OMNIFS_ATTACH_ADDR_ENV);
    assert(attached == has_name(all, OMNIFS_ATTACH_ADDR_ENV@)) by {
        let known = crate::text::texts(names@);
        if attached {
            let j = choose|j: int|
                0 <= j < known.len() && known[j] == OMNIFS_ATTACH_ADDR_ENV@;
            assert(known[j] == names@[j]@);
            assert(name_of(all[j]) == OMNIFS_ATTACH_ADDR_ENV@);
        }
        if has_name(all, OMNIFS_ATTACH_ADDR_ENV@) {
            let j = choose|j: int|
                0 <= j < all.len() && name_of(#[trigger] all[j]) == OMNIFS_ATTACH_ADDR_ENV@;
            assert(names@[j]@ == name_of(all[j]));
            assert(known[j] == OMNIFS_ATTACH_ADDR_ENV@);
        }
    }
    if !attached {
        return Err(
            concat3(
                "filesystem container is missing required env var `",
                OMNIFS_ATTACH_ADDR_ENV,
                "`",
            ),
        );
    }
    Ok(())
}

proof fn a_clean_environment(env: Seq<Seq<char>>)
    ensures
        env_violation(env) is None <==> (forall|i: int|
            0 <= i < env.len() ==> is_allowed(#[trigger] env[i])) && (forall|i: int, j: int|
            #![trigger env[i], env[j]]
            0 <= i < j < env.len() ==> name_of(env[i]) != name_of(env[j])),
    decreases env.len(),
{
    if env.len() > 0 {
        let rest = env.drop_last();
        a_clean_environment(rest);
        assert(forall|i: int| 0 <= i < rest.len() ==> rest[i] == #[trigger] env[i]);
        let last = env.len() - 1;
        if env_violation(env) is None {
            assert forall|i: int, j: int|
                #![trigger env[i], env[j]]
                0 <= i < j < env.len() implies name_of(env[i]) != name_of(env[j]) by {
                if j == last {
                    assert(name_of(rest[i]) == name_of(env[i]));
                } else {
                    assert(rest[i] == env[i] && rest[j] == env[j]);
                }
            }
            assert forall|i: int| 0 <= i < env.len() implies is_allowed(#[trigger] env[i]) by {
                if i < last {
                    assert(rest[i] == env[i]);
                }
            }
        } else {
            if env_violation(rest) is None {
                if is_allowed(env.last()) {
                    let i = choose|i: int|
                        0 <= i < rest.len() && name_of(#[trigger] rest[i]) == name_of(env.last());
                    assert(env[i] == rest[i]);
                    assert(env[last] == env.last());
                } else {
                    assert(env[last] == env.last());
                }
            } else {
                if !(forall|i: int| 0 <= i < rest.len() ==> is_allowed(#[trigger] rest[i])) {
                    let i = choose|i: int| 0 <= i < rest.len() && !is_allowed(#[trigger] rest[i]);
                    assert(env[i] == rest[i]);
                } else {
                    let (i, j) = choose|i: int, j: int|
                        #![trigger rest[i], rest[j]]
                        0 <= i < j < rest.len() && name_of(rest[i]) == name_of(rest[j]);
                    assert(env[i] == rest[i] && env[j] == rest[j]);
                }
            }
        }
    }
}

/// A container passes the audit exactly when it has no mounts, every variable
/// of its environment is allowed and set once, and the attach address is among
/// them.
pub proof fn a_locked_down_container_holds_nothing_else(mounts: nat, env: Seq<Seq<char>>)
    ensures
        violation(mounts, env) is None <==> {
            &&& mounts == 0
            &&& forall|i: int| 0 <= i < env.len() ==> is_allowed(#[trigger] env[i])
            &&& forall|i: int, j: int|
                #![trigger env[i], env[j]]
                0 <= i < j < env.len() ==> name_of(env[i]) != name_of(env[j])
            &&& has_name(env, OMNIFS_ATTACH_ADDR_ENV@)
        },
{
    a_clean_environment(env);
}

} // verus!
