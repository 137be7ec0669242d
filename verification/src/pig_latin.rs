use vstd::prelude::*;
use vstd::string::{StrSliceExecFns, StringExecFns};

verus! {

/// The elements of `s` never decrease.
pub open spec fn sorted_bytes(s: Seq<u8>) -> bool {
    forall|i: int, j: int| 0 <= i <= j < s.len() ==> s[i] <= s[j]
}

/// Searches the sorted slice for `key`. Returns `Ok` with the index of a
/// matching element when there is one, or else `Err` with the index at which
/// `key` could be inserted keeping the slice sorted.
pub fn binary_search(slice: &[u8], key: u8) -> (r: Result<usize, usize>)
    requires
        sorted_bytes(slice@),
    ensures
        r is Ok <==> slice@.contains(key),
        r matches Ok(i) ==> i < slice@.len() && slice@[i as int] == key,
        r matches Err(i) ==> i <= slice@.len() && (forall|k: int| 0 <= k < i ==> slice@[k] < key)
            && (forall|k: int| i <= k < slice@.len() ==> key < slice@[k]),
{
    let mut low: usize = 0;
    let mut high: usize = slice.len();
    while low < high
        invariant
            sorted_bytes(slice@),
            low <= high <= slice@.len(),
            forall|k: int| 0 <= k < low ==> slice@[k] < key,
            forall|k: int| high <= k < slice@.len() ==> key < slice@[k],
        decreases high - low,
    {
        let mid = low + (high - low) / 2;
        if slice[mid] < key {
            low = mid + 1;
        } else if slice[mid] > key {
            high = mid;
        } else {
            return Ok(mid);
        }
    }
    Err(low)
}

/// The letters that count as vowels when a word is moved into pig latin:
/// `a`, `e`, `i` and `o`.
pub open spec fn starts_with_listed_vowel(word: Seq<char>) -> bool {
    let c = word[0];
    c == 'a' || c == 'e' || c == 'i' || c == 'o'
}

/// The pig latin form of a word: a word that starts with a listed vowel gets
/// `-hay` appended; otherwise its first letter moves to the end, followed by
/// `ay`, after a hyphen.
pub open spec fn pig_latin_of(word: Seq<char>) -> Seq<char> {
    if starts_with_listed_vowel(word) {
        word + seq!['-', 'h', 'a', 'y']
    } else {
        word.skip(1) + seq!['-'] + word.take(1) + seq!['a', 'y']
    }
}

/// Which first letters count as vowels, and what each kind of word becomes:
/// a word starting with `a`, `e`, `i` or `o` is followed by `-hay`; any
/// other word loses its first character, which comes back after a hyphen,
/// followed by `ay`.
pub proof fn lemma_pig_latin_rule(word: Seq<char>)
    requires
        word.len() > 0,
    ensures
        word[0] == 'a' || word[0] == 'e' || word[0] == 'i' || word[0] == 'o' ==> pig_latin_of(word)
            == word + "-hay"@,
        !(word[0] == 'a' || word[0] == 'e' || word[0] == 'i' || word[0] == 'o') ==> pig_latin_of(
            word,
        ) == word.skip(1) + "-"@ + seq![word[0]] + "ay"@,
        pig_latin_of(word).len() == word.len() + if word[0] == 'a' || word[0] == 'e' || word[0]
            == 'i' || word[0] == 'o' {
            4int
        } else {
            3int
        },
{
    reveal_strlit("-hay");
    reveal_strlit("-");
    reveal_strlit("ay");
    assert("-hay"@ =~= seq!['-', 'h', 'a', 'y']);
    assert("-"@ =~= seq!['-']);
    assert("ay"@ =~= seq!['a', 'y']);
    assert(word.take(1) =~= seq![word[0]]);
}

/// Moves a word into pig latin. The word must start with an ASCII character;
/// the vowels are looked up by binary search in a sorted table.
pub fn pig_latin(word: &str) -> (r: String)
    requires
        word@.len() > 0,
        (word@[0] as u32) < 128,
    ensures
        r@ == pig_latin_of(word@),
        word@[0] == 'a' || word@[0] == 'e' || word@[0] == 'i' || word@[0] == 'o' ==> r@ == word@
            + "-hay"@,
        !(word@[0] == 'a' || word@[0] == 'e' || word@[0] == 'i' || word@[0] == 'o') ==> r@
            == word@.skip(1) + "-"@ + seq![word@[0]] + "ay"@,
{
    proof {
        lemma_pig_latin_rule(word@);
    }
    let first = word.get_char(0) as u8;
    let vowels: [u8; 5] = ['a' as u8, 'e' as u8, 'i' as u8, 'o' as u8, 'o' as u8];
    assert(sorted_bytes(vowels@));
    let mut result = String::new();
    match binary_search(vowels.as_slice(), first) {
        Ok(_) => {
            result.append(word);
            result.append("-hay");
            proof {
                reveal_strlit("-hay");
                assert(vowels@.contains(first));
                let k = choose|k: int| 0 <= k < 5 && vowels@[k] == first;
                assert(starts_with_listed_vowel(word@));
            }
        },
        Err(_) => {
            let len = word.unicode_len();
            result.append(word.substring_char(1, len));
            result.append("-");
            result.append(word.substring_char(0, 1));
            result.append("ay");
            proof {
                reveal_strlit("-");
                reveal_strlit("ay");
                assert(!vowels@.contains(first));
                assert(vowels@[0] == 97 && vowels@[1] == 101 && vowels@[2] == 105 && vowels@[3] == 111);
                assert(!starts_with_listed_vowel(word@));
                assert(word@.subrange(1, word@.len() as int) =~= word@.skip(1));
                assert(word@.subrange(0, 1) =~= word@.take(1));
            }
        },
    }
    result
}

} // verus!
