//! Font file names for the logo renderer.

use vstd::prelude::*;

use crate::text::{
    append_str, contains_char, ends_with_str, replace_char, replace_char_spec, seq_ends_with,
    string_of,
};

verus! {

/// Whether the name already carries a FIGlet font extension.
pub open spec fn has_font_extension(name: Seq<char>) -> bool {
    seq_ends_with(name, ".flf"@) || seq_ends_with(name, ".flc"@) || seq_ends_with(name, ".tlf"@)
}

/// The name with `.flf` added unless it already has a font extension.
pub open spec fn normalized_font_name(name: Seq<char>) -> Seq<char> {
    if has_font_extension(name) {
        name
    } else {
        name + ".flf"@
    }
}

/// The names to try for a font: the normalized name, then that name with
/// underscores turned into spaces if it has any, then with spaces turned
/// into underscores if it has any.
pub open spec fn font_name_variants(name: Seq<char>) -> Seq<Seq<char>> {
    let n = normalized_font_name(name);
    let with_spaces = if n.contains('_') {
        seq![replace_char_spec(n, '_', ' ')]
    } else {
        seq![]
    };
    let with_underscores = if n.contains(' ') {
        seq![replace_char_spec(n, ' ', '_')]
    } else {
        seq![]
    };
    seq![n] + with_spaces + with_underscores
}

/// Normalize a font name: add `.flf` when it has none of the extensions
/// `.flf`, `.flc`, `.tlf`.
pub fn normalize_font_name(input: &str) -> (res: String)
    ensures
        res@ == normalized_font_name(input@),
{
    if ends_with_str(input, ".flf") || ends_with_str(input, ".flc") || ends_with_str(input, ".tlf") {
        return string_of(input);
    }
    let mut out = string_of(input);
    append_str(&mut out, ".flf");
    out
}

/// The font names to try, covering both the space and the underscore
/// spelling of the name.
pub fn generate_font_name_variants(input: &str) -> (res: Vec<String>)
    ensures
        res@.map_values(|s: String| s@) == font_name_variants(input@),
{
    let normalized = normalize_font_name(input);
    let mut variants: Vec<String> = Vec::new();
    variants.push(normalized.clone());
    let ghost n = normalized@;
    if contains_char(normalized.as_str(), '_') {
        variants.push(replace_char(normalized.as_str(), '_', ' '));
    }
    if contains_char(normalized.as_str(), ' ') {
        variants.push(replace_char(normalized.as_str(), ' ', '_'));
    }
    proof {
        assert(variants@.map_values(|s: String| s@) =~= font_name_variants(input@));
    }
    variants
}

/// Normalizing twice gives the same name as normalizing once.
pub proof fn law_normalize_font_name_idempotent(name: Seq<char>)
    ensures
        normalized_font_name(normalized_font_name(name)) == normalized_font_name(name),
{
    reveal_strlit(".flf");
    if !has_font_extension(name) {
        let n = name + ".flf"@;
        assert(n.subrange(n.len() - 4, n.len() as int) =~= ".flf"@);
    }
}

/// A normalized name always carries a font extension.
pub proof fn law_normalized_name_has_extension(name: Seq<char>)
    ensures
        has_font_extension(normalized_font_name(name)),
{
    reveal_strlit(".flf");
    if !has_font_extension(name) {
        let n = name + ".flf"@;
        assert(n.subrange(n.len() - 4, n.len() as int) =~= ".flf"@);
    }
}

/// The variants of a font name: the normalized name comes first, one more
/// variant for an underscore and one for a space in it, the space and the
/// underscore spellings are among them, no name is tried twice, and all of
/// them read the same once underscores are taken for spaces.
pub proof fn law_font_name_variants(name: Seq<char>)
    ensures
        ({
            let n = normalized_font_name(name);
            let v = font_name_variants(name);
            &&& v[0] == n
            &&& v.len() == 1 + (if n.contains('_') { 1int } else { 0int }) + (if n.contains(' ') {
                1int
            } else {
                0int
            })
            &&& n.contains('_') ==> v.contains(replace_char_spec(n, '_', ' '))
            &&& n.contains(' ') ==> v.contains(replace_char_spec(n, ' ', '_'))
            &&& forall|i: int, j: int| 0 <= i < j < v.len() ==> v[i] != v[j]
            &&& forall|i: int|
                0 <= i < v.len() ==> replace_char_spec(#[trigger] v[i], '_', ' ')
                    == replace_char_spec(n, '_', ' ')
        }),
{
    let n = normalized_font_name(name);
    let v = font_name_variants(name);
    let spaced = replace_char_spec(n, '_', ' ');
    let underscored = replace_char_spec(n, ' ', '_');
    if n.contains('_') {
        let k = choose|k: int| 0 <= k < n.len() && n[k] == '_';
        assert(spaced[k] != n[k]);
        assert(!spaced.contains('_'));
        if n.contains(' ') {
            let m = choose|m: int| 0 <= m < n.len() && n[m] == ' ';
            assert(underscored[m] == '_');
            assert(spaced != underscored);
        }
        assert(v[1] == spaced);
    }
    if n.contains(' ') {
        let m = choose|m: int| 0 <= m < n.len() && n[m] == ' ';
        assert(underscored[m] != n[m]);
        assert(v[v.len() - 1] == underscored);
    }
    assert(replace_char_spec(n, '_', ' ') =~= spaced);
    assert(replace_char_spec(spaced, '_', ' ') =~= spaced);
    assert(replace_char_spec(underscored, '_', ' ') =~= spaced);
    assert forall|i: int| 0 <= i < v.len() implies replace_char_spec(#[trigger] v[i], '_', ' ')
        == spaced by {
        if i > 0 {
            assert(v[i] == spaced || v[i] == underscored);
        }
    }
}

} // verus!
