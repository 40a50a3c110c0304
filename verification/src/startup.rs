use vstd::prelude::*;

verus! {

/// Status code of a registry call that succeeded.
pub const ERROR_SUCCESS: u32 = 0;

/// Status code of a registry call on a value that does not exist.
pub const ERROR_FILE_NOT_FOUND: u32 = 2;

/// The UTF-16 code unit of a double quote.
pub const QUOTE: u16 = 0x22;

/// The raw OS error that a failed status stands for (the status read as a
/// signed 32-bit code).
pub open spec fn os_error_code(status: u32) -> i32 {
    status as i32
}

/// `Ok` for a successful status, else the OS error it stands for.
pub open spec fn status_result(status: u32) -> Result<(), i32> {
    if status == ERROR_SUCCESS {
        Ok(())
    } else {
        Err(os_error_code(status))
    }
}

/// `Ok` for a successful status, else the OS error it stands for.
pub fn check_status(status: u32) -> (result: Result<(), i32>)
    ensures
        result == status_result(status),
{
    if status == ERROR_SUCCESS {
        Ok(())
    } else {
        Err(status as i32)
    }
}

/// The command that starts the program at log-in: its executable path in
/// double quotes.
pub open spec fn quoted_command(executable: Seq<u16>) -> Seq<u16> {
    seq![QUOTE] + executable + seq![QUOTE]
}

/// The command that starts the program at log-in: `executable` (the UTF-16
/// path of the running program) in double quotes.
pub fn startup_command(executable: &[u16]) -> (command: Vec<u16>)
    ensures
        command@ == quoted_command(executable@),
{
    let mut command: Vec<u16> = Vec::new();
    command.push(QUOTE);
    let mut i: usize = 0;
    while i < executable.len()
        invariant
            i <= executable@.len(),
            command@ == seq![QUOTE] + executable@.take(i as int),
        decreases executable@.len() - i,
    {
        command.push(executable[i]);
        i = i + 1;
        assert(command@ =~= seq![QUOTE] + executable@.take(i as int));
    }
    assert(executable@.take(i as int) =~= executable@);
    command.push(QUOTE);
    command
}

/// What the size query of the start-up value decides: `Ok(None)` when the
/// value does not exist, `Ok(Some(n))` with the number of UTF-16 units to
/// allocate for a value of `byte_count` bytes, or the OS error.
pub open spec fn size_query_result(status: u32, byte_count: u32) -> Result<Option<usize>, i32> {
    if status == ERROR_FILE_NOT_FOUND {
        Ok(None)
    } else if status != ERROR_SUCCESS {
        Err(os_error_code(status))
    } else {
        Ok(Some(((byte_count as int + 1) / 2) as usize))
    }
}

/// What the size query of the start-up value decides: `Ok(None)` when the
/// value does not exist, `Ok(Some(n))` with the number of UTF-16 units to
/// allocate for a value of `byte_count` bytes, or the OS error.
pub fn size_query_outcome(status: u32, byte_count: u32) -> (outcome: Result<Option<usize>, i32>)
    ensures
        outcome == size_query_result(status, byte_count),
{
    if status == ERROR_FILE_NOT_FOUND {
        return Ok(None);
    }
    match check_status(status) {
        Err(code) => Err(code),
        Ok(()) => {
            let units: u32 = byte_count / 2 + byte_count % 2;
            Ok(Some(units as usize))
        },
    }
}

/// `s` without its trailing zero units.
pub open spec fn strip_trailing_zeros(s: Seq<u16>) -> Seq<u16>
    decreases s.len(),
{
    if s.len() > 0 && s.last() == 0 {
        strip_trailing_zeros(s.drop_last())
    } else {
        s
    }
}

/// The text that a registry value holds: the units that `byte_count` bytes
/// cover (at most the whole buffer), without trailing zero units.
pub open spec fn registry_text(value: Seq<u16>, byte_count: u32) -> Seq<u16> {
    let covered = byte_count as int / 2;
    let n = if covered < value.len() { covered } else { value.len() as int };
    strip_trailing_zeros(value.take(n))
}

/// The text that a registry value read into `value` holds, `byte_count`
/// being the byte length that the read reported.
pub fn trim_registry_value(value: Vec<u16>, byte_count: u32) -> (text: Vec<u16>)
    ensures
        text@ == registry_text(value@, byte_count),
{
    let mut value = value;
    let covered: usize = (byte_count / 2) as usize;
    let n: usize = if covered < value.len() { covered } else { value.len() };
    value.truncate(n);
    let ghost taken = value@;
    while value.len() > 0 && value[value.len() - 1] == 0
        invariant
            strip_trailing_zeros(value@) == strip_trailing_zeros(taken),
        decreases value@.len(),
    {
        let ghost before = value@;
        value.pop();
        assert(value@ =~= before.drop_last());
    }
    value
}

/// Whether two unit sequences are equal.
fn units_equal(a: &[u16], b: &[u16]) -> (equal: bool)
    ensures
        equal == (a@ == b@),
{
    if a.len() != b.len() {
        return false;
    }
    let mut i: usize = 0;
    while i < a.len()
        invariant
            a@.len() == b@.len(),
            i <= a@.len(),
            forall|j: int| 0 <= j < i ==> a@[j] == b@[j],
        decreases a@.len() - i,
    {
        if a[i] != b[i] {
            return false;
        }
        i = i + 1;
    }
    assert(a@ =~= b@);
    true
}

/// Whether the registry value read into `value` (`byte_count` bytes long)
/// is exactly `command`.
pub fn registry_value_matches(value: Vec<u16>, byte_count: u32, command: &[u16]) -> (matches: bool)
    ensures
        matches == (registry_text(value@, byte_count) == command@),
{
    let text = trim_registry_value(value, byte_count);
    units_equal(text.as_slice(), command)
}

/// What is written to start the program at log-in: the command with a
/// terminating zero, and its length in bytes, when that length fits in 32
/// bits.
pub open spec fn payload_of(command: Seq<u16>) -> Option<(Seq<u16>, u32)> {
    let payload = command.push(0);
    if 2 * payload.len() <= u32::MAX {
        Some((payload, (2 * payload.len()) as u32))
    } else {
        None
    }
}

/// What is written to start the program at log-in: `command` with a
/// terminating zero, and its length in bytes; `None` when that length does
/// not fit in 32 bits (the path is too long).
pub fn registry_payload(command: &[u16]) -> (payload: Option<(Vec<u16>, u32)>)
    ensures
        match (payload, payload_of(command@)) {
            (Some((units, bytes)), Some((spec_units, spec_bytes))) => units@ == spec_units && bytes == spec_bytes,
            (None, None) => true,
            _ => false,
        },
{
    let mut units: Vec<u16> = Vec::new();
    let mut i: usize = 0;
    while i < command.len()
        invariant
            i <= command@.len(),
            units@ == command@.take(i as int),
        decreases command@.len() - i,
    {
        units.push(command[i]);
        i = i + 1;
        assert(units@ =~= command@.take(i as int));
    }
    assert(command@.take(i as int) =~= command@);
    units.push(0);
    match units.len().checked_mul(2) {
        None => None,
        Some(bytes) => {
            if bytes <= u32::MAX as usize {
                Some((units, bytes as u32))
            } else {
                None
            }
        },
    }
}

/// What deleting the start-up value decides: a value that is already gone
/// counts as deleted.
pub open spec fn delete_result(status: u32) -> Result<(), i32> {
    if status == ERROR_FILE_NOT_FOUND {
        Ok(())
    } else {
        status_result(status)
    }
}

/// What deleting the start-up value decides: a value that is already gone
/// counts as deleted.
pub fn delete_outcome(status: u32) -> (result: Result<(), i32>)
    ensures
        result == delete_result(status),
{
    if status == ERROR_FILE_NOT_FOUND {
        Ok(())
    } else {
        check_status(status)
    }
}

/// What enabling start-up writes is what the start-up check then reads back
/// as enabled: the size query of the written value asks for exactly the
/// written units, and the text read from them is the command again.
pub proof fn lemma_written_command_reads_back(executable: Seq<u16>)
    requires
        payload_of(quoted_command(executable)) is Some,
    ensures
        ({
            let (payload, bytes) = payload_of(quoted_command(executable))->0;
            &&& size_query_result(ERROR_SUCCESS, bytes) == Ok::<Option<usize>, i32>(Some(payload.len() as usize))
            &&& registry_text(payload, bytes) == quoted_command(executable)
        }),
{
    let command = quoted_command(executable);
    let payload = command.push(0);
    assert(payload.take(payload.len() as int) =~= payload);
    assert(payload.drop_last() =~= command);
    assert(strip_trailing_zeros(command) == command);
    assert(strip_trailing_zeros(payload) == strip_trailing_zeros(command));
}

/// A status is success exactly when it is `ERROR_SUCCESS`; a failure
/// reports its status as the same 32 bits read as a signed code.
pub proof fn lemma_status_codes(status: u32)
    ensures
        status_result(status) is Ok <==> status == ERROR_SUCCESS,
        status != ERROR_SUCCESS ==> (status_result(status)->Err_0 as u32) == status,
        status <= 0x7fff_ffff ==> os_error_code(status) as int == status as int,
{
    assert((status as i32) as u32 == status) by (bit_vector);
    assert(status <= 0x7fff_ffff ==> (status as i32) as int == status as int) by (bit_vector);
}

/// The start-up command is the executable path with one double quote
/// before and one after it.
pub proof fn lemma_command_shape(executable: Seq<u16>)
    ensures
        quoted_command(executable).len() == executable.len() + 2,
        quoted_command(executable)[0] == QUOTE,
        quoted_command(executable).last() == QUOTE,
        quoted_command(executable).subrange(1, executable.len() as int + 1) == executable,
{
    assert(quoted_command(executable).subrange(1, executable.len() as int + 1) =~= executable);
}

/// The size query: a missing value means "not enabled", any other failure
/// is an error, and a found value gets a buffer of whole UTF-16 units just
/// large enough for its bytes.
pub proof fn lemma_size_query(status: u32, byte_count: u32)
    ensures
        size_query_result(status, byte_count) == Ok::<Option<usize>, i32>(None) <==> status
            == ERROR_FILE_NOT_FOUND,
        size_query_result(status, byte_count) is Err <==> (status != ERROR_SUCCESS && status
            != ERROR_FILE_NOT_FOUND),
        size_query_result(status, byte_count) matches Ok(Some(n)) ==> 2 * n >= byte_count && 2 * n
            <= byte_count + 1,
{
}

/// The text read from a registry value is a prefix of the units that the
/// reported byte count covers, without trailing zeros; what was dropped
/// from those units is zeros only.
pub proof fn lemma_registry_text(value: Seq<u16>, byte_count: u32)
    ensures
        ({
            let text = registry_text(value, byte_count);
            let covered = if (byte_count / 2) as int <= value.len() { (byte_count / 2) as int } else { value.len() as int };
            &&& text.len() <= covered
            &&& text == value.take(text.len() as int)
            &&& text.len() > 0 ==> text.last() != 0
            &&& forall|i: int| text.len() <= i < covered ==> value[i] == 0
        }),
{
    let covered = if (byte_count / 2) as int <= value.len() { (byte_count / 2) as int } else { value.len() as int };
    lemma_strip_trailing_zeros(value.take(covered));
    let text = registry_text(value, byte_count);
    assert forall|i: int| text.len() <= i < covered implies value[i] == 0 by {
        assert(value.take(covered)[i] == value[i]);
    }
    assert(text =~= value.take(text.len() as int));
}

proof fn lemma_strip_trailing_zeros(s: Seq<u16>)
    ensures
        strip_trailing_zeros(s).len() <= s.len(),
        strip_trailing_zeros(s) == s.take(strip_trailing_zeros(s).len() as int),
        strip_trailing_zeros(s).len() > 0 ==> strip_trailing_zeros(s).last() != 0,
        forall|i: int| strip_trailing_zeros(s).len() <= i < s.len() ==> s[i] == 0,
    decreases s.len(),
{
    if s.len() > 0 && s.last() == 0 {
        lemma_strip_trailing_zeros(s.drop_last());
        let t = strip_trailing_zeros(s.drop_last());
        assert(t =~= s.take(t.len() as int));
        assert forall|i: int| t.len() <= i < s.len() implies s[i] == 0 by {
            if i < s.len() - 1 {
                assert(s.drop_last()[i] == s[i]);
            }
        }
    } else {
        assert(s =~= s.take(s.len() as int));
    }
}

/// Enabling start-up writes the command followed by one zero unit, with a
/// byte count of two bytes per unit; it is refused exactly when that count
/// does not fit in 32 bits.
pub proof fn lemma_payload(command: Seq<u16>)
    ensures
        payload_of(command) is None <==> 2 * (command.len() + 1) > u32::MAX,
        payload_of(command) matches Some((units, bytes)) ==> {
            &&& units.len() == command.len() + 1
            &&& units.take(command.len() as int) == command
            &&& units.last() == 0
            &&& bytes as int == 2 * units.len()
        },
{
    assert(command.push(0).take(command.len() as int) =~= command);
}

/// Disabling start-up succeeds exactly when the value was deleted or was not
/// there; any other status is reported.
pub proof fn lemma_delete(status: u32)
    ensures
        delete_result(status) is Ok <==> (status == ERROR_SUCCESS || status == ERROR_FILE_NOT_FOUND),
        delete_result(status) is Err ==> delete_result(status) == status_result(status),
{
}

} // verus!
