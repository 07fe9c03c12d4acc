use vstd::prelude::*;
use crate::folder::TRUE;

verus! {

/// The string that a NUL-terminated wide buffer holds: every unit before the
/// first NUL, or the whole buffer when it holds none.
pub open spec fn before_nul(s: Seq<u16>) -> Seq<u16>
    decreases s.len(),
{
    if s.len() == 0 {
        s
    } else if s[0] == 0 {
        Seq::empty()
    } else {
        seq![s[0]] + before_nul(s.drop_first())
    }
}

/// `n` is the position of the first NUL of `s`, or its length when it has none.
pub open spec fn is_first_nul(s: Seq<u16>, n: int) -> bool {
    &&& 0 <= n <= s.len()
    &&& forall|i: int| 0 <= i < n ==> s[i] != 0
    &&& n < s.len() ==> s[n] == 0
}

proof fn lemma_before_nul_is_prefix(s: Seq<u16>, n: int)
    requires
        is_first_nul(s, n),
    ensures
        before_nul(s) =~= s.take(n),
    decreases n,
{
    if n > 0 {
        let t = s.drop_first();
        assert(is_first_nul(t, n - 1)) by {
            assert forall|i: int| 0 <= i < n - 1 implies t[i] != 0 by {
                assert(t[i] == s[i + 1]);
            }
        }
        lemma_before_nul_is_prefix(t, n - 1);
        assert(s.take(n) =~= seq![s[0]] + t.take(n - 1));
    }
}

/// The length of the string in a NUL-terminated wide buffer, as `lstrlenW`
/// counts it, stopping at the buffer's end.
pub fn wide_len(buffer: &[u16]) -> (n: usize)
    ensures
        is_first_nul(buffer@, n as int),
{
    let mut n: usize = 0;
    while n < buffer.len() && buffer[n] != 0
        invariant
            n <= buffer@.len(),
            forall|i: int| 0 <= i < n ==> buffer@[i] != 0,
        decreases buffer@.len() - n,
    {
        n = n + 1;
    }
    n
}

/// The first `n` units of `buffer`.
fn copy_prefix(buffer: &[u16], n: usize) -> (r: Vec<u16>)
    requires
        n <= buffer@.len(),
    ensures
        r@ == buffer@.take(n as int),
{
    let mut r: Vec<u16> = Vec::new();
    let mut i: usize = 0;
    while i < n
        invariant
            i <= n,
            n <= buffer@.len(),
            r@ =~= buffer@.take(i as int),
        decreases n - i,
    {
        r.push(buffer[i]);
        i = i + 1;
    }
    r
}

/// Reads the answer of `SHGetSpecialFolderPathW`: `status` is what the call
/// returned and `buffer` the buffer it was handed.
///
/// The folder is found only when the call returned `TRUE`; its path is then
/// the NUL-terminated string at the start of the buffer.
pub fn get_special_folder_path(status: i32, buffer: &[u16]) -> (r: Option<Vec<u16>>)
    ensures
        status != TRUE ==> r is None,
        status == TRUE ==> r is Some && r->0@ == before_nul(buffer@),
{
    if status != TRUE {
        return None;
    }
    let n = wide_len(buffer);
    proof {
        lemma_before_nul_is_prefix(buffer@, n as int);
    }
    Some(copy_prefix(buffer, n))
}

/// Why no user name could be read.
#[derive(Debug, Copy, Clone, PartialEq, Eq, Structural)]
pub enum UserNameError {
    /// The call failed, with this OS error code.
    Os(i32),
    /// The call succeeded but wrote back a count that its buffer cannot hold.
    InvalidCount,
}

/// Whether the count that `GetUserNameW` wrote back covers a name and its
/// terminator that `buffer` can hold.
pub open spec fn user_name_fits(buffer: Seq<u16>, written: u32) -> bool {
    1 <= written && written - 1 <= buffer.len()
}

/// Reads the answer of `GetUserNameW`: `status` is what the call returned,
/// `buffer` the buffer it was handed, `written` the count it wrote back,
/// which includes the terminating NUL, and `last_error` the OS error code
/// read right after the call.
///
/// A failed call gives its error code. On success the name is the first
/// `written - 1` units of the buffer, unless the count does not fit it.
pub fn get_user_name(status: i32, buffer: &[u16], written: u32, last_error: i32) -> (r: Result<
    Vec<u16>,
    UserNameError,
>)
    ensures
        status == 0 ==> r == Err::<Vec<u16>, UserNameError>(UserNameError::Os(last_error)),
        status != 0 && !user_name_fits(buffer@, written) ==> r == Err::<Vec<u16>, UserNameError>(
            UserNameError::InvalidCount,
        ),
        status != 0 && user_name_fits(buffer@, written) ==> (r matches Ok(name)
            && name@ == buffer@.take(written - 1)),
{
    if status == 0 {
        return Err(UserNameError::Os(last_error));
    }
    if written == 0 {
        return Err(UserNameError::InvalidCount);
    }
    let len = (written - 1) as usize;
    if len > buffer.len() {
        return Err(UserNameError::InvalidCount);
    }
    Ok(copy_prefix(buffer, len))
}

} // verus!
