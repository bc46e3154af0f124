use vstd::prelude::*;

verus! {

// The export lifecycle against the kernel is check-then-act on the
// existence of the pin's sysfs directory.  These functions model that
// protocol: `exported` is whether the directory exists, the
// `writes_control` functions say when a call touches the global control
// file, and the `exported_after` functions give the state a successful
// call leaves.  Check-then-act is inherently racy against other
// processes exporting the same pin; the kernel's own error on a double
// export is the backstop, and no cross-process locking is attempted.

/// Whether an export call writes the export control file: only when the
/// pin's directory does not exist yet ("already exported" is success, not
/// an error, and writes nothing).
pub open spec fn export_writes_control(exported: bool) -> bool {
    !exported
}

/// Whether the pin is exported after a successful export call.
pub open spec fn exported_after_export(exported: bool) -> bool {
    true
}

/// Whether an unexport call writes the unexport control file: only when
/// the pin's directory currently exists.
pub open spec fn unexport_writes_control(exported: bool) -> bool {
    exported
}

/// Whether the pin is exported after a successful unexport call.
pub open spec fn exported_after_unexport(exported: bool) -> bool {
    false
}

/// Whether the pin is exported after `with_exported` runs to completion:
/// whatever the body did, the closing unexport leaves it unexported.
pub open spec fn exported_after_scoped(exported: bool, body_ok: bool) -> bool {
    exported_after_unexport(exported_after_export(exported))
}

/// Export is idempotent: a second successful export right after a first
/// leaves the pin exported exactly as the first did, and registers
/// nothing anew — the pin's directory already exists, so the second call
/// does not write the control file.
pub proof fn lemma_export_idempotent(exported: bool)
    ensures
        exported_after_export(exported_after_export(exported)) == exported_after_export(exported),
        !export_writes_control(exported_after_export(exported)),
{
}

/// Unexport of a never-exported pin is a no-op that succeeds: it writes
/// nothing and the pin stays unexported.
pub proof fn lemma_unexport_never_exported()
    ensures
        !unexport_writes_control(false),
        !exported_after_unexport(false),
{
}

/// The scoped export always ends unexported, whether the body succeeded
/// or failed.
pub proof fn lemma_scoped_export_unexports(exported: bool, body_ok: bool)
    ensures
        !exported_after_scoped(exported, body_ok),
{
}

/// The executable decision behind [`export_writes_control`].
pub(crate) fn export_needs_write(dir_exists: bool) -> (r: bool)
    ensures
        r == export_writes_control(dir_exists),
{
    !dir_exists
}

/// The executable decision behind [`unexport_writes_control`].
pub(crate) fn unexport_needs_write(dir_exists: bool) -> (r: bool)
    ensures
        r == unexport_writes_control(dir_exists),
{
    dir_exists
}

} // verus!
