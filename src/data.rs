use vstd::prelude::*;

verus! {

/// What the caller hands over for one run: the snippet in its two forms,
/// its language tag, the scratch root, and the backends picked by name.
/// A run reads it and never changes it.
#[derive(Clone, Debug)]
pub struct DataHolder {
    /// The language tag, such as a file type name or an extension.
    pub filetype: String,
    /// The line under the cursor.
    pub current_line: String,
    /// The selected block of lines.
    pub current_bloc: String,
    /// The scratch root under which backends make their working directories.
    pub work_dir: String,
    /// Names of the backends that the caller picked explicitly.
    pub selected_interpreters: Vec<String>,
}

/// The texts of a list of strings.
pub open spec fn texts(v: Seq<String>) -> Seq<Seq<char>> {
    v.map_values(|s: String| s@)
}

/// Whether `v` holds a string whose text is `s@`.
pub fn contains_text(v: &Vec<String>, s: &String) -> (r: bool)
    ensures
        r == texts(v@).contains(s@),
{
    let mut i: usize = 0;
    while i < v.len()
        invariant
            i <= v@.len(),
            forall|j: int| 0 <= j < i ==> v@[j]@ != s@,
        decreases v@.len() - i,
    {
        if v[i] == *s {
            assert(texts(v@)[i as int] == s@);
            return true;
        }
        i = i + 1;
    }
    proof {
        if texts(v@).contains(s@) {
            let k = choose|k: int| 0 <= k < texts(v@).len() && texts(v@)[k] == s@;
            assert(v@[k]@ == s@);
        }
    }
    false
}

} // verus!
