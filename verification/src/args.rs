//! The Java command line of a launch: JVM arguments, game arguments and the
//! class path, with `${...}` templates filled in.

use vstd::prelude::*;
use crate::auth::AuthSession;
use crate::paths;
use crate::rules;
use crate::rules::{HostOs, Platform};
use crate::text;
use crate::types::LaunchOptions;
use crate::version::{ArgumentValue, ArgumentValueNested, VersionDetails};

verus! {

/// Texts of a list of strings.
pub open spec fn texts(v: Seq<String>) -> Seq<Seq<char>> {
    v.map_values(|s: String| s@)
}

/// The paths of the libraries whose file is present, in order.
pub open spec fn present_libraries(libs: Seq<(String, bool)>) -> Seq<Seq<char>>
    decreases libs.len(),
{
    if libs.len() == 0 {
        seq![]
    } else if libs.last().1 {
        present_libraries(libs.drop_last()).push(libs.last().0@)
    } else {
        present_libraries(libs.drop_last())
    }
}

/// Replacement of each template of `pairs` in turn (`str::replace` of every
/// occurrence, first pair first).
pub open spec fn substitute(s: Seq<char>, pairs: Seq<(Seq<char>, Seq<char>)>) -> Seq<char>
    decreases pairs.len(),
{
    if pairs.len() == 0 {
        s
    } else {
        substitute(text::replace_all(s, pairs[0].0, pairs[0].1), pairs.drop_first())
    }
}

/// Texts of a list of replacement pairs.
pub open spec fn pair_texts(p: Seq<(String, String)>) -> Seq<(Seq<char>, Seq<char>)> {
    p.map_values(|x: (String, String)| (x.0@, x.1@))
}

/// Every template of `pairs` is non-empty.
pub open spec fn keys_nonempty(p: Seq<(String, String)>) -> bool {
    forall|i: int| 0 <= i < p.len() ==> (#[trigger] p[i]).0@.len() > 0
}

/// Applies the replacements `pairs` in order.
pub fn apply_templates(s: &str, pairs: &Vec<(String, String)>) -> (r: String)
    requires
        keys_nonempty(pairs@),
    ensures
        r@ == substitute(s@, pair_texts(pairs@)),
{
    let mut cur = text::owned(s);
    let mut i: usize = 0;
    assert(pair_texts(pairs@).subrange(0, pairs@.len() as int) =~= pair_texts(pairs@));
    while i < pairs.len()
        invariant
            i <= pairs@.len(),
            keys_nonempty(pairs@),
            substitute(s@, pair_texts(pairs@)) == substitute(
                cur@,
                pair_texts(pairs@).subrange(i as int, pairs@.len() as int),
            ),
        decreases pairs@.len() - i,
    {
        let ghost rest = pair_texts(pairs@).subrange(i as int, pairs@.len() as int);
        assert(rest[0] == (pairs@[i as int].0@, pairs@[i as int].1@));
        assert(pairs@[i as int].0@.len() > 0);
        let next = text::replace(cur.as_str(), pairs[i].0.as_str(), pairs[i].1.as_str());
        assert(rest.drop_first() =~= pair_texts(pairs@).subrange(i + 1, pairs@.len() as int));
        cur = next;
        i = i + 1;
    }
    assert(pair_texts(pairs@).subrange(pairs@.len() as int, pairs@.len() as int) =~= Seq::<
        (Seq<char>, Seq<char>),
    >::empty());
    cur
}

/// The values an argument list expands to on `platform` with `features`,
/// each with its templates replaced: plain values always, guarded ones when
/// their rules allow them.
pub open spec fn expand(
    values: Seq<ArgumentValue>,
    pairs: Seq<(Seq<char>, Seq<char>)>,
    features: Seq<(String, bool)>,
    platform: Platform,
) -> Seq<Seq<char>>
    decreases values.len(),
{
    if values.len() == 0 {
        seq![]
    } else {
        expand(values.drop_last(), pairs, features, platform) + match values.last() {
            ArgumentValue::Simple(s) => seq![substitute(s@, pairs)],
            ArgumentValue::Complex { rules: rs, value } => if rules::rules_allow(
                match rs {
                    Some(x) => Some(x@),
                    None => None,
                },
                features,
                platform,
            ) {
                match value {
                    ArgumentValueNested::Single(s) => seq![substitute(s@, pairs)],
                    ArgumentValueNested::Multiple(list) => texts(list@).map_values(
                        |x: Seq<char>| substitute(x, pairs),
                    ),
                }
            } else {
                seq![]
            },
        }
    }
}

fn push_expanded(
    out: &mut Vec<String>,
    values: &Vec<ArgumentValue>,
    pairs: &Vec<(String, String)>,
    features: &Vec<(String, bool)>,
    platform: Platform,
)
    requires
        keys_nonempty(pairs@),
    ensures
        texts(final(out)@) == texts(old(out)@) + expand(
            values@,
            pair_texts(pairs@),
            features@,
            platform,
        ),
{
    let ghost start = texts(out@);
    let mut i: usize = 0;
    while i < values.len()
        invariant
            i <= values@.len(),
            keys_nonempty(pairs@),
            texts(out@) == start + expand(
                values@.subrange(0, i as int),
                pair_texts(pairs@),
                features@,
                platform,
            ),
        decreases values@.len() - i,
    {
        let ghost pre = values@.subrange(0, i as int);
        let ghost post = values@.subrange(0, i + 1);
        assert(post.drop_last() =~= pre);
        assert(post.last() == values@[i as int]);
        let ghost before = texts(out@);
        match &values[i] {
            ArgumentValue::Simple(s) => {
                let a = apply_templates(s.as_str(), pairs);
                out.push(a);
                assert(texts(out@) =~= before.push(a@));
            },
            ArgumentValue::Complex { rules: rs, value } => {
                let ok = match rs {
                    Some(x) => rules::allows(Some(x), features, platform),
                    None => rules::allows(None, features, platform),
                };
                if ok {
                    match value {
                        ArgumentValueNested::Single(s) => {
                            let a = apply_templates(s.as_str(), pairs);
                            out.push(a);
                            assert(texts(out@) =~= before.push(a@));
                        },
                        ArgumentValueNested::Multiple(list) => {
                            let mut j: usize = 0;
                            while j < list.len()
                                invariant
                                    j <= list@.len(),
                                    keys_nonempty(pairs@),
                                    texts(out@) == before + texts(list@).subrange(
                                        0,
                                        j as int,
                                    ).map_values(
                                        |x: Seq<char>| substitute(x, pair_texts(pairs@)),
                                    ),
                                decreases list@.len() - j,
                            {
                                let a = apply_templates(list[j].as_str(), pairs);
                                let ghost b2 = texts(out@);
                                out.push(a);
                                assert(texts(out@) =~= b2.push(a@));
                                assert(texts(list@).subrange(0, j + 1).map_values(
                                    |x: Seq<char>| substitute(x, pair_texts(pairs@)),
                                ) =~= texts(list@).subrange(0, j as int).map_values(
                                    |x: Seq<char>| substitute(x, pair_texts(pairs@)),
                                ).push(a@));
                                j = j + 1;
                            }
                            assert(texts(list@).subrange(0, list@.len() as int) =~= texts(list@));
                        },
                    }
                } else {
                    assert(texts(out@) =~= before + Seq::<Seq<char>>::empty());
                }
            },
        }
        assert(texts(out@) =~= start + expand(post, pair_texts(pairs@), features@, platform));
        i = i + 1;
    }
    assert(values@.subrange(0, values@.len() as int) =~= values@);
}

/// The class path separator: `;` on Windows, `:` elsewhere.
pub open spec fn cp_separator(os: HostOs) -> Seq<char> {
    if os == HostOs::Windows {
        ";"@
    } else {
        ":"@
    }
}

/// The templates of JVM arguments and what replaces them.
pub open spec fn jvm_pairs(natives_dir: Seq<char>, classpath: Seq<char>, os: HostOs) -> Seq<
    (Seq<char>, Seq<char>),
> {
    seq![
        ("${natives_directory}"@, natives_dir),
        ("${launcher_name}"@, "AlephLauncher"@),
        ("${launcher_version}"@, "1.0.0"@),
        ("${classpath}"@, classpath),
        ("${library_directory}"@, paths::parent_dir(natives_dir)),
        ("${classpath_separator}"@, cp_separator(os)),
    ]
}

/// Every template of the JVM arguments has the `${name}` shape.
proof fn lemma_jvm_templates(pairs: Seq<(Seq<char>, Seq<char>)>)
    requires
        pairs.len() == 6,
        pairs[0].0 == "${natives_directory}"@,
        pairs[1].0 == "${launcher_name}"@,
        pairs[2].0 == "${launcher_version}"@,
        pairs[3].0 == "${classpath}"@,
        pairs[4].0 == "${library_directory}"@,
        pairs[5].0 == "${classpath_separator}"@,
    ensures
        forall|j: int| 0 <= j < pairs.len() ==> template_shape(#[trigger] pairs[j].0),
{
    reveal_strlit("${natives_directory}");
    reveal_strlit("${launcher_name}");
    reveal_strlit("${launcher_version}");
    reveal_strlit("${classpath}");
    reveal_strlit("${library_directory}");
    reveal_strlit("${classpath_separator}");
    assert(template_shape("${natives_directory}"@));
    assert(template_shape("${launcher_name}"@));
    assert(template_shape("${launcher_version}"@));
    assert(template_shape("${classpath}"@));
    assert(template_shape("${library_directory}"@));
    assert(template_shape("${classpath_separator}"@));
    assert forall|j: int| 0 <= j < pairs.len() implies template_shape(#[trigger] pairs[j].0) by {
        if j == 0 {
        } else if j == 1 {
        } else if j == 2 {
        } else if j == 3 {
        } else if j == 4 {
        } else {
        }
    }
}

/// A JVM argument that is one template becomes what the template stands
/// for: the natives folder, the launcher's name and version, the class path
/// and the platform's class path separator (the folder and class path when
/// they hold no `$`).
pub proof fn jvm_templates_are_filled(natives_dir: Seq<char>, classpath: Seq<char>, os: HostOs)
    ensures
        no_dollar(natives_dir) ==> substitute(
            "${natives_directory}"@,
            jvm_pairs(natives_dir, classpath, os),
        ) == natives_dir,
        substitute("${launcher_name}"@, jvm_pairs(natives_dir, classpath, os)) == "AlephLauncher"@,
        substitute("${launcher_version}"@, jvm_pairs(natives_dir, classpath, os)) == "1.0.0"@,
        no_dollar(classpath) ==> substitute("${classpath}"@, jvm_pairs(natives_dir, classpath, os))
            == classpath,
        os == HostOs::Windows ==> substitute(
            "${classpath_separator}"@,
            jvm_pairs(natives_dir, classpath, os),
        ) == ";"@,
        os != HostOs::Windows ==> substitute(
            "${classpath_separator}"@,
            jvm_pairs(natives_dir, classpath, os),
        ) == ":"@,
{
    let pairs = jvm_pairs(natives_dir, classpath, os);
    reveal_strlit("${natives_directory}");
    reveal_strlit("${launcher_name}");
    reveal_strlit("${launcher_version}");
    reveal_strlit("${classpath}");
    reveal_strlit("${library_directory}");
    reveal_strlit("${classpath_separator}");
    reveal_strlit("AlephLauncher");
    reveal_strlit("1.0.0");
    reveal_strlit(";");
    reveal_strlit(":");
    lemma_jvm_templates(pairs);
    let t1 = "${launcher_name}"@;
    assert(pairs[0].0 != t1) by {
        assert(pairs[0].0.len() != t1.len());
    }
    let t2 = "${launcher_version}"@;
    assert forall|j: int| 0 <= j < 2 implies #[trigger] pairs[j].0 != t2 by {
        assert(pairs[j].0.len() != t2.len());
    }
    let t3 = "${classpath}"@;
    assert forall|j: int| 0 <= j < 3 implies #[trigger] pairs[j].0 != t3 by {
        assert(pairs[j].0.len() != t3.len());
    }
    let t5 = "${classpath_separator}"@;
    assert forall|j: int| 0 <= j < 5 implies #[trigger] pairs[j].0 != t5 by {
        assert(pairs[j].0.len() != t5.len());
    }
    assert(no_dollar("AlephLauncher"@));
    assert(no_dollar("1.0.0"@));
    assert(no_dollar(";"@));
    assert(no_dollar(":"@));
    if no_dollar(natives_dir) {
        lemma_substitute_template("${natives_directory}"@, pairs, 0);
    }
    lemma_substitute_template(t1, pairs, 1);
    lemma_substitute_template(t2, pairs, 2);
    if no_dollar(classpath) {
        lemma_substitute_template(t3, pairs, 3);
    }
    lemma_substitute_template(t5, pairs, 5);
}

/// Custom JVM arguments that are not blank, in order.
pub open spec fn nonblank(args: Seq<String>) -> Seq<Seq<char>>
    decreases args.len(),
{
    if args.len() == 0 {
        seq![]
    } else if text::trim(args.last()@).len() == 0 {
        nonblank(args.drop_last())
    } else {
        nonblank(args.drop_last()).push(args.last()@)
    }
}

/// The JVM arguments before the class path check.
pub open spec fn jvm_args_core(
    options: LaunchOptions,
    natives_dir: Seq<char>,
    classpath: Seq<char>,
    details: VersionDetails,
    features: Seq<(String, bool)>,
    platform: Platform,
) -> Seq<Seq<char>> {
    seq![
        "-Xms"@ + text::decimal(options.memory_min_mb as nat) + "M"@,
        "-Xmx"@ + text::decimal(options.memory_max_mb as nat) + "M"@,
        "-Djava.library.path="@ + natives_dir,
        "-Dstdout.encoding=UTF-8"@,
        "-Dstderr.encoding=UTF-8"@,
    ] + nonblank(options.custom_jvm_args@) + match details.arguments {
        Some(a) => expand(a.jvm@, jvm_pairs(natives_dir, classpath, platform.os), features, platform),
        None => seq![],
    }
}

/// The JVM arguments: memory limits, native library path, UTF-8 streams, the
/// custom arguments, the version's own, and `-cp <classpath>` unless a class
/// path option is already there.
pub open spec fn jvm_args(
    options: LaunchOptions,
    natives_dir: Seq<char>,
    classpath: Seq<char>,
    details: VersionDetails,
    features: Seq<(String, bool)>,
    platform: Platform,
) -> Seq<Seq<char>> {
    let core = jvm_args_core(options, natives_dir, classpath, details, features, platform);
    if core.contains("-cp"@) || core.contains("-classpath"@) {
        core
    } else {
        core + seq!["-cp"@, classpath]
    }
}

/// A template `${name}`: a `$` first, a `}` last, and neither anywhere else.
pub open spec fn template_shape(t: Seq<char>) -> bool {
    &&& t.len() >= 2
    &&& t[0] == '$'
    &&& t.last() == '}'
    &&& forall|i: int| 0 < i < t.len() ==> #[trigger] t[i] != '$'
    &&& forall|i: int| 0 <= i < t.len() - 1 ==> #[trigger] t[i] != '}'
}

/// A text with no `$`, which no template can match.
pub open spec fn no_dollar(s: Seq<char>) -> bool {
    forall|i: int| 0 <= i < s.len() ==> #[trigger] s[i] != '$'
}

/// Replacing a pattern that starts with `$` leaves a text without `$` as it is.
proof fn lemma_replace_no_dollar(s: Seq<char>, pat: Seq<char>, with: Seq<char>)
    requires
        no_dollar(s),
        pat.len() > 0,
        pat[0] == '$',
    ensures
        text::replace_all(s, pat, with) == s,
    decreases s.len(),
{
    if s.len() > 0 {
        assert(!text::has_prefix(s, pat)) by {
            if text::has_prefix(s, pat) {
                assert(s.subrange(0, pat.len() as int)[0] == s[0]);
            }
        }
        lemma_replace_no_dollar(s.drop_first(), pat, with);
        assert(seq![s[0]] + s.drop_first() =~= s);
    }
}

/// Replacing one template in another leaves it as it is unless they are the
/// same template, which is replaced whole.
proof fn lemma_replace_template(t: Seq<char>, pat: Seq<char>, with: Seq<char>)
    requires
        template_shape(t),
        template_shape(pat),
    ensures
        text::replace_all(t, pat, with) == (if pat == t {
            with
        } else {
            t
        }),
{
    let rest = t.drop_first();
    assert(no_dollar(rest)) by {
        assert forall|i: int| 0 <= i < rest.len() implies #[trigger] rest[i] != '$' by {
            assert(rest[i] == t[i + 1]);
        }
    }
    lemma_replace_no_dollar(rest, pat, with);
    if text::has_prefix(t, pat) {
        let k = pat.len() - 1;
        assert(t.subrange(0, pat.len() as int)[k] == t[k]);
        assert(t[k] == '}');
        assert(pat.len() == t.len());
        assert(t.subrange(0, pat.len() as int) =~= t);
        assert(t.subrange(pat.len() as int, t.len() as int) =~= Seq::<char>::empty());
        assert(pat == t);
        assert(text::replace_all(Seq::<char>::empty(), pat, with) == Seq::<char>::empty());
        assert(text::replace_all(t, pat, with) == with + text::replace_all(
            t.subrange(pat.len() as int, t.len() as int),
            pat,
            with,
        ));
        assert(with + Seq::<char>::empty() =~= with);
    } else {
        assert(pat != t) by {
            if pat == t {
                assert(t.subrange(0, t.len() as int) =~= t);
            }
        }
        assert(seq![t[0]] + rest =~= t);
        assert(text::replace_all(t, pat, with) == seq![t[0]] + text::replace_all(rest, pat, with));
    }
}

/// Substituting a list of templates in a lone template `t` gives the value of
/// its first pair, provided that value holds no `$`.
proof fn lemma_substitute_template(
    t: Seq<char>,
    pairs: Seq<(Seq<char>, Seq<char>)>,
    k: int,
)
    requires
        template_shape(t),
        forall|j: int| 0 <= j < pairs.len() ==> template_shape(#[trigger] pairs[j].0),
        0 <= k < pairs.len(),
        pairs[k].0 == t,
        forall|j: int| 0 <= j < k ==> #[trigger] pairs[j].0 != t,
        no_dollar(pairs[k].1),
    ensures
        substitute(t, pairs) == pairs[k].1,
    decreases pairs.len(),
{
    lemma_replace_template(t, pairs[0].0, pairs[0].1);
    let tail = pairs.drop_first();
    if k == 0 {
        assert(pairs[0].0 == t);
        lemma_substitute_no_dollar(pairs[0].1, tail);
    } else {
        assert(pairs[0].0 != t);
        assert forall|j: int| 0 <= j < k - 1 implies #[trigger] tail[j].0 != t by {
            assert(tail[j] == pairs[j + 1]);
        }
        assert forall|j: int| 0 <= j < tail.len() implies template_shape(#[trigger] tail[j].0) by {
            assert(tail[j] == pairs[j + 1]);
        }
        lemma_substitute_template(t, tail, k - 1);
    }
}

/// Substituting templates in a text without `$` leaves it as it is.
proof fn lemma_substitute_no_dollar(s: Seq<char>, pairs: Seq<(Seq<char>, Seq<char>)>)
    requires
        no_dollar(s),
        forall|j: int| 0 <= j < pairs.len() ==> template_shape(#[trigger] pairs[j].0),
    ensures
        substitute(s, pairs) == s,
    decreases pairs.len(),
{
    if pairs.len() > 0 {
        assert(template_shape(pairs[0].0));
        lemma_replace_no_dollar(s, pairs[0].0, pairs[0].1);
        let tail = pairs.drop_first();
        assert forall|j: int| 0 <= j < tail.len() implies template_shape(#[trigger] tail[j].0) by {
            assert(tail[j] == pairs[j + 1]);
        }
        lemma_substitute_no_dollar(s, tail);
    }
}

/// The templates of game arguments and what replaces them.
pub open spec fn game_pairs(
    game_dir: Seq<char>,
    assets_dir: Seq<char>,
    details: VersionDetails,
    session: AuthSession,
) -> Seq<(Seq<char>, Seq<char>)> {
    seq![
        ("${auth_player_name}"@, session.username@),
        ("${version_name}"@, details.id@),
        ("${game_directory}"@, game_dir),
        ("${assets_root}"@, assets_dir),
        ("${game_assets}"@, assets_dir),
        ("${assets_index_name}"@, match details.asset_index {
            Some(a) => a.id@,
            None => "legacy"@,
        }),
        ("${auth_uuid}"@, session.uuid@),
        ("${auth_access_token}"@, session.access_token@),
        ("${user_type}"@, session.user_type@),
        ("${version_type}"@, "Aleph"@),
        ("${user_properties}"@, "{}"@),
        ("${auth_xuid}"@, match session.xuid {
            Some(x) => x@,
            None => "0"@,
        }),
    ]
}

/// Every template of the game arguments has the `${name}` shape.
proof fn lemma_game_templates(pairs: Seq<(Seq<char>, Seq<char>)>)
    requires
        pairs.len() == 12,
        pairs[0].0 == "${auth_player_name}"@,
        pairs[1].0 == "${version_name}"@,
        pairs[2].0 == "${game_directory}"@,
        pairs[3].0 == "${assets_root}"@,
        pairs[4].0 == "${game_assets}"@,
        pairs[5].0 == "${assets_index_name}"@,
        pairs[6].0 == "${auth_uuid}"@,
        pairs[7].0 == "${auth_access_token}"@,
        pairs[8].0 == "${user_type}"@,
        pairs[9].0 == "${version_type}"@,
        pairs[10].0 == "${user_properties}"@,
        pairs[11].0 == "${auth_xuid}"@,
    ensures
        forall|j: int| 0 <= j < pairs.len() ==> template_shape(#[trigger] pairs[j].0),
{
    reveal_strlit("${auth_player_name}");
    reveal_strlit("${version_name}");
    reveal_strlit("${game_directory}");
    reveal_strlit("${assets_root}");
    reveal_strlit("${game_assets}");
    reveal_strlit("${assets_index_name}");
    reveal_strlit("${auth_uuid}");
    reveal_strlit("${auth_access_token}");
    reveal_strlit("${user_type}");
    reveal_strlit("${version_type}");
    reveal_strlit("${user_properties}");
    reveal_strlit("${auth_xuid}");
    assert(template_shape("${auth_player_name}"@));
    assert(template_shape("${version_name}"@));
    assert(template_shape("${game_directory}"@));
    assert(template_shape("${assets_root}"@));
    assert(template_shape("${game_assets}"@));
    assert(template_shape("${assets_index_name}"@));
    assert(template_shape("${auth_uuid}"@));
    assert(template_shape("${auth_access_token}"@));
    assert(template_shape("${user_type}"@));
    assert(template_shape("${version_type}"@));
    assert(template_shape("${user_properties}"@));
    assert(template_shape("${auth_xuid}"@));
    assert forall|j: int| 0 <= j < pairs.len() implies template_shape(#[trigger] pairs[j].0) by {
        if j == 0 {
        } else if j == 1 {
        } else if j == 2 {
        } else if j == 3 {
        } else if j == 4 {
        } else if j == 5 {
        } else if j == 6 {
        } else if j == 7 {
        } else if j == 8 {
        } else if j == 9 {
        } else if j == 10 {
        } else {
        }
    }
}

/// A game argument that is one template becomes what the template stands
/// for: the player's name, the version's id, the game and assets folders,
/// the session's UUID, access token and user type, `Aleph` for the version
/// type and `{}` for the user properties (each when it holds no `$`, which
/// a later template could otherwise match).
pub proof fn game_templates_are_filled(
    game_dir: Seq<char>,
    assets_dir: Seq<char>,
    details: VersionDetails,
    session: AuthSession,
)
    ensures
        no_dollar(session.username@) ==> substitute(
            "${auth_player_name}"@,
            game_pairs(game_dir, assets_dir, details, session),
        ) == session.username@,
        no_dollar(details.id@) ==> substitute(
            "${version_name}"@,
            game_pairs(game_dir, assets_dir, details, session),
        ) == details.id@,
        no_dollar(game_dir) ==> substitute(
            "${game_directory}"@,
            game_pairs(game_dir, assets_dir, details, session),
        ) == game_dir,
        no_dollar(assets_dir) ==> substitute(
            "${assets_root}"@,
            game_pairs(game_dir, assets_dir, details, session),
        ) == assets_dir,
        no_dollar(assets_dir) ==> substitute(
            "${game_assets}"@,
            game_pairs(game_dir, assets_dir, details, session),
        ) == assets_dir,
        no_dollar(session.uuid@) ==> substitute(
            "${auth_uuid}"@,
            game_pairs(game_dir, assets_dir, details, session),
        ) == session.uuid@,
        no_dollar(session.access_token@) ==> substitute(
            "${auth_access_token}"@,
            game_pairs(game_dir, assets_dir, details, session),
        ) == session.access_token@,
        no_dollar(session.user_type@) ==> substitute(
            "${user_type}"@,
            game_pairs(game_dir, assets_dir, details, session),
        ) == session.user_type@,
        substitute("${version_type}"@, game_pairs(game_dir, assets_dir, details, session))
            == "Aleph"@,
        substitute("${user_properties}"@, game_pairs(game_dir, assets_dir, details, session))
            == "{}"@,
{
    let pairs = game_pairs(game_dir, assets_dir, details, session);
    reveal_strlit("${auth_player_name}");
    reveal_strlit("${version_name}");
    reveal_strlit("${game_directory}");
    reveal_strlit("${assets_root}");
    reveal_strlit("${game_assets}");
    reveal_strlit("${assets_index_name}");
    reveal_strlit("${auth_uuid}");
    reveal_strlit("${auth_access_token}");
    reveal_strlit("${user_type}");
    reveal_strlit("${version_type}");
    reveal_strlit("${user_properties}");
    reveal_strlit("${auth_xuid}");
    reveal_strlit("Aleph");
    reveal_strlit("{}");
    lemma_game_templates(pairs);
    let t1 = "${version_name}"@;
    assert(pairs[0].0 != t1) by {
        assert(pairs[0].0.len() != t1.len());
    }
    let t2 = "${game_directory}"@;
    assert forall|j: int| 0 <= j < 2 implies #[trigger] pairs[j].0 != t2 by {
        assert(pairs[j].0.len() != t2.len());
    }
    let t3 = "${assets_root}"@;
    assert forall|j: int| 0 <= j < 3 implies #[trigger] pairs[j].0 != t3 by {
        assert(pairs[j].0.len() != t3.len());
    }
    let t4 = "${game_assets}"@;
    assert forall|j: int| 0 <= j < 3 implies #[trigger] pairs[j].0 != t4 by {
        assert(pairs[j].0.len() != t4.len());
    }
    assert(pairs[3].0 != t4) by {
        assert(pairs[3].0[2] != t4[2]);
    }
    let t6 = "${auth_uuid}"@;
    assert forall|j: int| 0 <= j < 6 implies #[trigger] pairs[j].0 != t6 by {
        assert(pairs[j].0.len() != t6.len());
    }
    let t7 = "${auth_access_token}"@;
    assert forall|j: int| 0 <= j < 7 && j != 5 implies #[trigger] pairs[j].0 != t7 by {
        assert(pairs[j].0.len() != t7.len());
    }
    assert(pairs[5].0 != t7) by {
        assert(pairs[5].0[3] != t7[3]);
    }
    let t8 = "${user_type}"@;
    assert forall|j: int| 0 <= j < 8 && j != 6 implies #[trigger] pairs[j].0 != t8 by {
        assert(pairs[j].0.len() != t8.len());
    }
    assert(pairs[6].0 != t8) by {
        assert(pairs[6].0[2] != t8[2]);
    }
    let t9 = "${version_type}"@;
    assert forall|j: int| 0 <= j < 9 && j != 1 implies #[trigger] pairs[j].0 != t9 by {
        assert(pairs[j].0.len() != t9.len());
    }
    assert(pairs[1].0 != t9) by {
        assert(pairs[1].0[10] != t9[10]);
    }
    let t10 = "${user_properties}"@;
    assert forall|j: int| 0 <= j < 10 implies #[trigger] pairs[j].0 != t10 by {
        assert(pairs[j].0.len() != t10.len());
    }
    assert(no_dollar("Aleph"@));
    assert(no_dollar("{}"@));
    if no_dollar(session.username@) {
        lemma_substitute_template("${auth_player_name}"@, pairs, 0);
    }
    if no_dollar(details.id@) {
        lemma_substitute_template(t1, pairs, 1);
    }
    if no_dollar(game_dir) {
        lemma_substitute_template(t2, pairs, 2);
    }
    if no_dollar(assets_dir) {
        lemma_substitute_template(t3, pairs, 3);
        lemma_substitute_template(t4, pairs, 4);
    }
    if no_dollar(session.uuid@) {
        lemma_substitute_template(t6, pairs, 6);
    }
    if no_dollar(session.access_token@) {
        lemma_substitute_template(t7, pairs, 7);
    }
    if no_dollar(session.user_type@) {
        lemma_substitute_template(t8, pairs, 8);
    }
    lemma_substitute_template(t9, pairs, 9);
    lemma_substitute_template(t10, pairs, 10);
}

/// Whitespace-separated words of `s` (std `str::split_whitespace`), with
/// `cur` the word being read.
pub open spec fn words_from(s: Seq<char>, cur: Seq<char>) -> Seq<Seq<char>>
    decreases s.len(),
{
    if s.len() == 0 {
        if cur.len() > 0 {
            seq![cur]
        } else {
            seq![]
        }
    } else if text::is_whitespace(s[0]) {
        (if cur.len() > 0 {
            seq![cur]
        } else {
            seq![]
        }) + words_from(s.drop_first(), seq![])
    } else {
        words_from(s.drop_first(), cur.push(s[0]))
    }
}

pub open spec fn words(s: Seq<char>) -> Seq<Seq<char>> {
    words_from(s, seq![])
}

/// The game arguments: the version's modern list, else its legacy string
/// split at whitespace, then the window size (or fullscreen) and the server
/// to join directly.
pub open spec fn game_args(
    options: LaunchOptions,
    game_dir: Seq<char>,
    assets_dir: Seq<char>,
    details: VersionDetails,
    session: AuthSession,
    features: Seq<(String, bool)>,
    platform: Platform,
) -> Seq<Seq<char>> {
    let pairs = game_pairs(game_dir, assets_dir, details, session);
    let main = match details.arguments {
        Some(a) => expand(a.game@, pairs, features, platform),
        None => match details.minecraft_arguments {
            Some(l) => words(l@).map_values(|w: Seq<char>| substitute(w, pairs)),
            None => seq![],
        },
    };
    let screen = if options.fullscreen {
        seq!["--fullscreen"@]
    } else {
        seq![
            "--width"@,
            text::decimal(options.window_width as nat),
            "--height"@,
            text::decimal(options.window_height as nat),
        ]
    };
    let port: u16 = match options.quick_play_port {
        Some(p) => p,
        None => 25565,
    };
    let quick = match options.quick_play_server {
        Some(server) => seq![
            "--quickPlayMultiplayer"@,
            server@ + ":"@ + text::decimal(port as nat),
            "--server"@,
            server@,
            "--port"@,
            text::decimal(port as nat),
        ],
        None => seq![],
    };
    main + screen + quick
}

/// With a legacy `minecraftArguments` string, a word that is the player-name,
/// UUID or access-token template becomes, at its place in the game
/// arguments, the session's name, UUID or access token.
pub proof fn legacy_game_args_carry_the_session(
    options: LaunchOptions,
    game_dir: Seq<char>,
    assets_dir: Seq<char>,
    details: VersionDetails,
    session: AuthSession,
    features: Seq<(String, bool)>,
    platform: Platform,
    k: int,
)
    requires
        details.arguments is None,
        details.minecraft_arguments is Some,
        0 <= k < words(details.minecraft_arguments->0@).len(),
    ensures
        words(details.minecraft_arguments->0@)[k] == "${auth_access_token}"@ && no_dollar(
            session.access_token@,
        ) ==> game_args(options, game_dir, assets_dir, details, session, features, platform)[k]
            == session.access_token@,
        words(details.minecraft_arguments->0@)[k] == "${auth_uuid}"@ && no_dollar(session.uuid@)
            ==> game_args(options, game_dir, assets_dir, details, session, features, platform)[k]
            == session.uuid@,
        words(details.minecraft_arguments->0@)[k] == "${auth_player_name}"@ && no_dollar(
            session.username@,
        ) ==> game_args(options, game_dir, assets_dir, details, session, features, platform)[k]
            == session.username@,
{
    game_templates_are_filled(game_dir, assets_dir, details, session);
    let g = game_args(options, game_dir, assets_dir, details, session, features, platform);
    let pairs = game_pairs(game_dir, assets_dir, details, session);
    let main = words(details.minecraft_arguments->0@).map_values(|w: Seq<char>| substitute(w, pairs));
    assert(g[k] == main[k]);
}

/// The class path: the given library jars, then the client jar, joined by
/// the platform's separator.
pub open spec fn classpath_text(parts: Seq<Seq<char>>, sep: Seq<char>) -> Seq<char>
    decreases parts.len(),
{
    if parts.len() == 0 {
        seq![]
    } else if parts.len() == 1 {
        parts[0]
    } else {
        classpath_text(parts.drop_last(), sep) + sep + parts.last()
    }
}

fn str_pair(a: &str, b: &str) -> (r: (String, String))
    ensures
        r.0@ == a@,
        r.1@ == b@,
{
    (text::owned(a), text::owned(b))
}

fn has_classpath_option(args: &Vec<String>) -> (r: bool)
    ensures
        r == (texts(args@).contains("-cp"@) || texts(args@).contains("-classpath"@)),
{
    let mut i: usize = 0;
    while i < args.len()
        invariant
            i <= args@.len(),
            forall|j: int| 0 <= j < i ==> args@[j]@ != "-cp"@ && args@[j]@ != "-classpath"@,
        decreases args@.len() - i,
    {
        if text::str_eq(args[i].as_str(), "-cp") || text::str_eq(args[i].as_str(), "-classpath") {
            assert(texts(args@)[i as int] == args@[i as int]@);
            return true;
        }
        i = i + 1;
    }
    assert(!texts(args@).contains("-cp"@)) by {
        if texts(args@).contains("-cp"@) {
            let j = choose|j: int| 0 <= j < texts(args@).len() && texts(args@)[j] == "-cp"@;
            assert(args@[j]@ == "-cp"@);
        }
    }
    assert(!texts(args@).contains("-classpath"@)) by {
        if texts(args@).contains("-classpath"@) {
            let j = choose|j: int| 0 <= j < texts(args@).len() && texts(args@)[j] == "-classpath"@;
            assert(args@[j]@ == "-classpath"@);
        }
    }
    false
}

fn push_text(out: &mut Vec<String>, s: String)
    ensures
        texts(final(out)@) == texts(old(out)@).push(s@),
{
    out.push(s);
    assert(texts(out@) =~= texts(old(out)@).push(s@));
}

fn push_words(out: &mut Vec<String>, line: &str, pairs: &Vec<(String, String)>)
    requires
        keys_nonempty(pairs@),
    ensures
        texts(final(out)@) == texts(old(out)@) + words(line@).map_values(
            |w: Seq<char>| substitute(w, pair_texts(pairs@)),
        ),
{
    let v = text::chars_of(line);
    let ghost start = texts(out@);
    let ghost f = |w: Seq<char>| substitute(w, pair_texts(pairs@));
    let mut cur: Vec<char> = Vec::new();
    let mut i: usize = 0;
    assert(v@.subrange(0, v@.len() as int) =~= v@);
    while i < v.len()
        invariant
            v@ == line@,
            i <= v@.len(),
            keys_nonempty(pairs@),
            f == (|w: Seq<char>| substitute(w, pair_texts(pairs@))),
            texts(out@) + words_from(v@.subrange(i as int, v@.len() as int), cur@).map_values(f)
                == start + words(line@).map_values(f),
        decreases v@.len() - i,
    {
        let ghost rest = v@.subrange(i as int, v@.len() as int);
        assert(rest.drop_first() =~= v@.subrange(i + 1, v@.len() as int));
        let c = v[i];
        if text::whitespace(c) {
            if cur.len() > 0 {
                let w = text::string_of(&cur);
                let a = apply_templates(w.as_str(), pairs);
                let ghost before = texts(out@);
                push_text(out, a);
                assert((seq![cur@] + words_from(rest.drop_first(), seq![])).map_values(f) =~= seq![
                    f(cur@),
                ] + words_from(rest.drop_first(), seq![]).map_values(f));
                assert(texts(out@) + words_from(rest.drop_first(), seq![]).map_values(f) =~= before
                    + words_from(rest, cur@).map_values(f));
            } else {
                assert((Seq::<Seq<char>>::empty() + words_from(rest.drop_first(), seq![])) =~= words_from(
                    rest.drop_first(),
                    seq![],
                ));
            }
            cur = Vec::new();
            assert(cur@ =~= Seq::<char>::empty());
        } else {
            cur.push(c);
        }
        i = i + 1;
    }
    let ghost tail = v@.subrange(v@.len() as int, v@.len() as int);
    assert(tail.len() == 0);
    if cur.len() > 0 {
        let w = text::string_of(&cur);
        let a = apply_templates(w.as_str(), pairs);
        let ghost before = texts(out@);
        push_text(out, a);
        assert(seq![cur@].map_values(f) =~= seq![f(cur@)]);
        assert(texts(out@) =~= before + words_from(tail, cur@).map_values(f));
    } else {
        assert(words_from(tail, cur@).map_values(f) =~= Seq::<Seq<char>>::empty());
        assert(texts(out@) =~= texts(out@) + words_from(tail, cur@).map_values(f));
    }
}

/// Builds the launch command line.
pub struct ArgumentBuilder;

impl ArgumentBuilder {
    /// The JVM arguments of a launch.
    pub fn build_jvm_args(
        options: &LaunchOptions,
        natives_dir: &str,
        classpath: &str,
        details: &VersionDetails,
        features: &Vec<(String, bool)>,
        platform: Platform,
    ) -> (r: Vec<String>)
        ensures
            texts(r@) == jvm_args(*options, natives_dir@, classpath@, *details, features@, platform),
    {
        let mut args: Vec<String> = Vec::new();
        let min = text::decimal_string(options.memory_min_mb as u64);
        push_text(&mut args, text::concat3("-Xms", min.as_str(), "M"));
        let max = text::decimal_string(options.memory_max_mb as u64);
        push_text(&mut args, text::concat3("-Xmx", max.as_str(), "M"));
        push_text(&mut args, text::concat2("-Djava.library.path=", natives_dir));
        push_text(&mut args, text::owned("-Dstdout.encoding=UTF-8"));
        push_text(&mut args, text::owned("-Dstderr.encoding=UTF-8"));
        let ghost head = texts(args@);
        let mut i: usize = 0;
        while i < options.custom_jvm_args.len()
            invariant
                i <= options.custom_jvm_args@.len(),
                texts(args@) == head + nonblank(options.custom_jvm_args@.subrange(0, i as int)),
            decreases options.custom_jvm_args@.len() - i,
        {
            let a = &options.custom_jvm_args[i];
            let ghost post = options.custom_jvm_args@.subrange(0, i + 1);
            assert(post.drop_last() =~= options.custom_jvm_args@.subrange(0, i as int));
            let t = text::trimmed(a.as_str());
            if !t.as_str().is_empty() {
                push_text(&mut args, text::owned(a.as_str()));
            }
            i = i + 1;
        }
        assert(options.custom_jvm_args@.subrange(0, options.custom_jvm_args@.len() as int)
            =~= options.custom_jvm_args@);
        match &details.arguments {
            Some(va) => {
                let lib_dir = paths::parent(natives_dir);
                let sep = if platform.os == HostOs::Windows {
                    ";"
                } else {
                    ":"
                };
                let mut pairs: Vec<(String, String)> = Vec::new();
                pairs.push(str_pair("${natives_directory}", natives_dir));
                pairs.push(str_pair("${launcher_name}", "AlephLauncher"));
                pairs.push(str_pair("${launcher_version}", "1.0.0"));
                pairs.push(str_pair("${classpath}", classpath));
                pairs.push(str_pair("${library_directory}", lib_dir.as_str()));
                pairs.push(str_pair("${classpath_separator}", sep));
                proof {
                    reveal_strlit("${natives_directory}");
                    reveal_strlit("${launcher_name}");
                    reveal_strlit("${launcher_version}");
                    reveal_strlit("${classpath}");
                    reveal_strlit("${library_directory}");
                    reveal_strlit("${classpath_separator}");
                }
                assert(pair_texts(pairs@) =~= jvm_pairs(natives_dir@, classpath@, platform.os));
                push_expanded(&mut args, &va.jvm, &pairs, features, platform);
            },
            None => {},
        }
        assert(texts(args@) =~= jvm_args_core(
            *options,
            natives_dir@,
            classpath@,
            *details,
            features@,
            platform,
        ));
        if !has_classpath_option(&args) {
            push_text(&mut args, text::owned("-cp"));
            push_text(&mut args, text::owned(classpath));
        }
        args
    }

    /// The game arguments of a launch.
    #[verifier::spinoff_prover]
    #[verifier::rlimit(50)]
    pub fn build_game_args(
        options: &LaunchOptions,
        game_dir: &str,
        assets_dir: &str,
        details: &VersionDetails,
        session: &AuthSession,
        features: &Vec<(String, bool)>,
        platform: Platform,
    ) -> (r: Vec<String>)
        ensures
            texts(r@) == game_args(
                *options,
                game_dir@,
                assets_dir@,
                *details,
                *session,
                features@,
                platform,
            ),
    {
        let mut pairs: Vec<(String, String)> = Vec::new();
        pairs.push(str_pair("${auth_player_name}", session.username.as_str()));
        pairs.push(str_pair("${version_name}", details.id.as_str()));
        pairs.push(str_pair("${game_directory}", game_dir));
        pairs.push(str_pair("${assets_root}", assets_dir));
        pairs.push(str_pair("${game_assets}", assets_dir));
        let index_name = match &details.asset_index {
            Some(a) => text::owned(a.id.as_str()),
            None => text::owned("legacy"),
        };
        pairs.push(str_pair("${assets_index_name}", index_name.as_str()));
        pairs.push(str_pair("${auth_uuid}", session.uuid.as_str()));
        pairs.push(str_pair("${auth_access_token}", session.access_token.as_str()));
        pairs.push(str_pair("${user_type}", session.user_type.as_str()));
        pairs.push(str_pair("${version_type}", "Aleph"));
        pairs.push(str_pair("${user_properties}", "{}"));
        let xuid = match &session.xuid {
            Some(x) => text::owned(x.as_str()),
            None => text::owned("0"),
        };
        pairs.push(str_pair("${auth_xuid}", xuid.as_str()));
        proof {
            reveal_strlit("${auth_player_name}");
            reveal_strlit("${version_name}");
            reveal_strlit("${game_directory}");
            reveal_strlit("${assets_root}");
            reveal_strlit("${game_assets}");
            reveal_strlit("${assets_index_name}");
            reveal_strlit("${auth_uuid}");
            reveal_strlit("${auth_access_token}");
            reveal_strlit("${user_type}");
            reveal_strlit("${version_type}");
            reveal_strlit("${user_properties}");
            reveal_strlit("${auth_xuid}");
        }
        assert(pair_texts(pairs@) =~= game_pairs(game_dir@, assets_dir@, *details, *session));
        let mut args: Vec<String> = Vec::new();
        match &details.arguments {
            Some(va) => {
                push_expanded(&mut args, &va.game, &pairs, features, platform);
            },
            None => {
                match &details.minecraft_arguments {
                    Some(line) => {
                        push_words(&mut args, line.as_str(), &pairs);
                    },
                    None => {},
                }
            },
        }
        if options.fullscreen {
            push_text(&mut args, text::owned("--fullscreen"));
        } else {
            push_text(&mut args, text::owned("--width"));
            push_text(&mut args, text::decimal_string(options.window_width as u64));
            push_text(&mut args, text::owned("--height"));
            push_text(&mut args, text::decimal_string(options.window_height as u64));
        }
        match &options.quick_play_server {
            Some(server) => {
                let port: u16 = match options.quick_play_port {
                    Some(p) => p,
                    None => 25565,
                };
                let port_text = text::decimal_string(port as u64);
                push_text(&mut args, text::owned("--quickPlayMultiplayer"));
                push_text(&mut args, text::concat3(server.as_str(), ":", port_text.as_str()));
                push_text(&mut args, text::owned("--server"));
                push_text(&mut args, text::owned(server.as_str()));
                push_text(&mut args, text::owned("--port"));
                push_text(&mut args, text::decimal_string(port as u64));
            },
            None => {},
        }
        assert(texts(args@) =~= game_args(
            *options,
            game_dir@,
            assets_dir@,
            *details,
            *session,
            features@,
            platform,
        ));
        args
    }

    /// The class path of a launch: the library jars whose file is present
    /// (each library comes with whether its file exists), in order, and then
    /// the client jar, which is always last, joined by the platform's
    /// separator.
    pub fn build_classpath(libraries: &Vec<(String, bool)>, client_jar: &str, platform: Platform) -> (r:
        String)
        ensures
            r@ == classpath_text(present_libraries(libraries@).push(client_jar@), cp_separator(platform.os)),
    {
        let mut kept: Vec<String> = Vec::new();
        let mut j: usize = 0;
        while j < libraries.len()
            invariant
                j <= libraries@.len(),
                texts(kept@) == present_libraries(libraries@.subrange(0, j as int)),
            decreases libraries@.len() - j,
        {
            assert(libraries@.subrange(0, j + 1).drop_last() =~= libraries@.subrange(0, j as int));
            assert(libraries@.subrange(0, j + 1).last() == libraries@[j as int]);
            if libraries[j].1 {
                let ghost before = kept@;
                kept.push(text::owned(libraries[j].0.as_str()));
                assert(texts(kept@) =~= texts(before).push(libraries@[j as int].0@));
            }
            j = j + 1;
        }
        assert(libraries@.subrange(0, libraries@.len() as int) =~= libraries@);
        let libraries = &kept;
        let sep = if platform.os == HostOs::Windows {
            ";"
        } else {
            ":"
        };
        proof {
            reveal_strlit(";");
            reveal_strlit(":");
        }
        let ghost parts = texts(libraries@).push(client_jar@);
        let mut out = String::new();
        let mut i: usize = 0;
        while i < libraries.len()
            invariant
                i <= libraries@.len(),
                parts == texts(libraries@).push(client_jar@),
                sep@ == cp_separator(platform.os),
                out@ == classpath_text(parts.subrange(0, i as int), sep@),
            decreases libraries@.len() - i,
        {
            let ghost post = parts.subrange(0, i + 1);
            assert(post.drop_last() =~= parts.subrange(0, i as int));
            assert(post.last() == libraries@[i as int]@);
            if i > 0 {
                out.append(sep);
            }
            out.append(libraries[i].as_str());
            i = i + 1;
        }
        let ghost all = parts.subrange(0, parts.len() as int);
        assert(all =~= parts);
        assert(all.drop_last() =~= parts.subrange(0, libraries@.len() as int));
        if libraries.len() > 0 {
            out.append(sep);
        }
        out.append(client_jar);
        out
    }
}

} // verus!
