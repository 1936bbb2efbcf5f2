//! DRM connector to DDC adapter resolution from what sysfs shows of a connector.
//!
//! For a connector such as `card0-HDMI-A-1`, sysfs exposes the DDC adapter as
//! the symlink `/sys/class/drm/card0-HDMI-A-1/ddc`, whose target ends in
//! `i2c-<N>`; the device node is then `/dev/i2c-<N>`. Reading sysfs is the
//! caller's part: these functions decide from what it found.

use vstd::prelude::*;

use crate::error::I2cDevError;

verus! {

/// The characters after the last `/` of `p` (all of `p` where it has none).
pub open spec fn last_segment(p: Seq<char>) -> Seq<char>
    decreases p.len(),
{
    if p.len() == 0 || p.last() == '/' {
        seq![]
    } else {
        last_segment(p.drop_last()).push(p.last())
    }
}

/// The file name of a Unix path: its final component, where that is a
/// normal one. Repeated and trailing `/` are ignored and `.` components are
/// normalized away, so the final component is the last segment between `/`s
/// that is neither empty nor `.`; there is none for `/`, `.` or the empty
/// path, and a final `..` is no file name.
pub open spec fn path_file_name(p: Seq<char>) -> Option<Seq<char>>
    decreases p.len(),
{
    if p.len() == 0 {
        None
    } else if p.last() == '/' {
        path_file_name(p.drop_last())
    } else if last_segment(p) == seq!['.'] {
        path_file_name(p.drop_last())
    } else if last_segment(p) == seq!['.', '.'] {
        None
    } else {
        Some(last_segment(p))
    }
}

/// `std::path::Path::file_name` on `path`, read back as a string (losslessly:
/// a name cut from a `str` is valid UTF-8).
///
/// As `Path::components` documents it on Unix, repeated separators and a
/// trailing one are ignored and `.` is normalized away (a leading `.` is the
/// current directory, no file name either); `file_name` is the final
/// component if it is a normal one, and `None` where the path ends in `..`
/// or has no component but the root or `.`. That is [`path_file_name`].
#[verifier::external_body]
fn file_name(path: &str) -> (r: Option<String>)
    ensures
        match r {
            Some(name) => path_file_name(path@) == Some(name@),
            None => path_file_name(path@) is None,
        },
{
    match std::path::Path::new(path).file_name() {
        Some(name) => Some(name.to_string_lossy().into_owned()),
        None => None,
    }
}

/// The prefix of an adapter's directory name in sysfs.
pub open spec fn adapter_prefix() -> Seq<char> {
    seq!['i', '2', 'c', '-']
}

/// Whether every character of `s` is an ASCII decimal digit.
pub open spec fn all_ascii_digits(s: Seq<char>) -> bool {
    forall|i: int| 0 <= i < s.len() ==> '0' <= #[trigger] s[i] <= '9'
}

/// The adapter index in a directory name `i2c-<N>`: the non-empty, all-digit
/// text after the prefix; `None` for any other name.
pub open spec fn adapter_index(name: Seq<char>) -> Option<Seq<char>> {
    if name.len() > adapter_prefix().len() && name.take(4) == adapter_prefix()
        && all_ascii_digits(name.skip(4)) {
        Some(name.skip(4))
    } else {
        None
    }
}

/// The sysfs directory name of the adapter with index `n`: `i2c-` then `n`.
pub open spec fn adapter_name(n: Seq<char>) -> Seq<char> {
    seq!['i', '2', 'c', '-'] + n
}

/// Whether `n` is a decimal adapter index: one or more ASCII digits.
pub open spec fn decimal_index(n: Seq<char>) -> bool {
    n.len() > 0 && forall|i: int| 0 <= i < n.len() ==> '0' <= #[trigger] n[i] <= '9'
}

/// A name is an adapter's directory name exactly when it is `i2c-` followed
/// by a decimal index, and its index is then that text: `i2c-7`, `i2c-17`
/// and `i2c-0042` have the indices `7`, `17` and `0042`, while `i2c-`,
/// `i2c-1a` and `usb-6` have none.
pub proof fn lemma_adapter_index_exact(name: Seq<char>, n: Seq<char>)
    ensures
        name == adapter_name(n) && decimal_index(n) ==> adapter_index(name) == Some(n),
        adapter_index(name) matches Some(m) ==> name == adapter_name(m) && decimal_index(m),
{
    if name == adapter_name(n) && decimal_index(n) {
        assert(name.take(4) =~= adapter_prefix());
        assert(name.skip(4) =~= n);
        assert forall|i: int| 0 <= i < name.skip(4).len() implies '0' <= #[trigger] name.skip(
            4,
        )[i] <= '9' by {
            assert(name.skip(4)[i] == n[i]);
        }
    }
    if let Some(m) = adapter_index(name) {
        assert(name =~= name.take(4) + name.skip(4));
        assert forall|i: int| 0 <= i < m.len() implies '0' <= #[trigger] m[i] <= '9' by {
            assert(m[i] == name.skip(4)[i]);
        }
    }
}

/// The device node of the adapter with index `index`.
pub open spec fn device_path(index: Seq<char>) -> Seq<char> {
    "/dev/i2c-"@ + index
}

/// The device node that a `ddc` symlink with target `target` designates: that
/// of the adapter index in the target's final component, if there is one.
pub open spec fn ddc_device_path(target: Seq<char>) -> Option<Seq<char>> {
    match path_file_name(target) {
        Some(name) => match adapter_index(name) {
            Some(index) => Some(device_path(index)),
            None => None,
        },
        None => None,
    }
}

/// Whether `path` names an I²C adapter's device node: `/dev/i2c-` followed by
/// one or more ASCII digits.
pub open spec fn is_adapter_device_node(path: Seq<char>) -> bool {
    &&& path.len() > 9
    &&& path.take(9) == "/dev/i2c-"@
    &&& all_ascii_digits(path.skip(9))
}

/// Only the final component of a symlink target counts: two targets with the
/// same final component designate the same device node, whatever their
/// leading directories (a change of sysfs depth does not change the result).
pub proof fn lemma_only_final_component_counts(t1: Seq<char>, t2: Seq<char>)
    requires
        path_file_name(t1) == path_file_name(t2),
    ensures
        ddc_device_path(t1) == ddc_device_path(t2),
{
}

/// Every device node that a symlink target designates is `/dev/i2c-<N>`,
/// with `N` one or more ASCII digits.
pub proof fn lemma_designated_path_is_adapter_node(target: Seq<char>)
    ensures
        ddc_device_path(target) matches Some(p) ==> is_adapter_device_node(p),
{
    if let Some(p) = ddc_device_path(target) {
        let index = adapter_index(path_file_name(target)->0)->0;
        reveal_strlit("/dev/i2c-");
        assert(p.take(9) =~= "/dev/i2c-"@);
        assert(p.skip(9) =~= index);
    }
}

/// The adapter index in `name`, if `name` is `i2c-` followed by one or more
/// ASCII digits.
pub fn parse_adapter_index(name: &str) -> (r: Option<String>)
    ensures
        match r {
            Some(index) => adapter_index(name@) == Some(index@),
            None => adapter_index(name@) is None,
        },
        forall|n: Seq<char>|
            name@ == #[trigger] adapter_name(n) && decimal_index(n) ==> (r matches Some(index)
                && index@ == n),
        r matches Some(index) ==> name@ == adapter_name(index@) && decimal_index(index@),
{
    proof {
        assert forall|n: Seq<char>| name@ == #[trigger] adapter_name(n) && decimal_index(n) implies adapter_index(name@) == Some(n) by {
            lemma_adapter_index_exact(name@, n);
        }
        lemma_adapter_index_exact(name@, seq![]);
    }
    let len = name.unicode_len();
    if len <= 4 {
        return None;
    }
    if !(name.get_char(0) == 'i' && name.get_char(1) == '2' && name.get_char(2) == 'c'
        && name.get_char(3) == '-') {
        assert(name@.take(4)[0] != adapter_prefix()[0] || name@.take(4)[1] != adapter_prefix()[1]
            || name@.take(4)[2] != adapter_prefix()[2] || name@.take(4)[3]
            != adapter_prefix()[3]);
        return None;
    }
    assert(name@.take(4) =~= adapter_prefix());
    let mut i: usize = 4;
    while i < len
        invariant
            4 <= i <= len,
            len == name@.len(),
            forall|j: int| 4 <= j < i ==> '0' <= #[trigger] name@[j] <= '9',
        decreases len - i,
    {
        let c = name.get_char(i);
        if !('0' <= c && c <= '9') {
            assert(name@.skip(4)[i - 4] == c);
            return None;
        }
        i = i + 1;
    }
    let index = name.substring_char(4, len);
    assert(index@ =~= name@.skip(4));
    Some(String::from_str(index))
}

/// The device path for a `ddc` symlink whose target is `symlink_target`, given
/// `name`, the target's final component (`None` where the target has none).
///
/// The path is `/dev/i2c-<N>` where `name` is `i2c-<N>` with `N` one or more
/// ASCII digits; any other name fails with `DdcAdapterIndexUnparseable`.
pub fn adapter_device_path(symlink_target: &str, name: Option<&str>) -> (r: Result<
    String,
    I2cDevError,
>)
    ensures
        match name {
            Some(n) => match adapter_index(n@) {
                Some(index) => r matches Ok(p) && p@ == device_path(index),
                None => r matches Err(I2cDevError::DdcAdapterIndexUnparseable {
                    symlink_target: t,
                }) && t@ == symlink_target@,
            },
            None => r matches Err(I2cDevError::DdcAdapterIndexUnparseable {
                symlink_target: t,
            }) && t@ == symlink_target@,
        },
        forall|n: Seq<char>|
            name matches Some(nm) && nm@ == #[trigger] adapter_name(n) && decimal_index(n) ==> (
            r matches Ok(p) && p@ == "/dev/i2c-"@ + n),
        r matches Ok(p) ==> (name matches Some(nm) && exists|n: Seq<char>|
            nm@ == #[trigger] adapter_name(n) && decimal_index(n) && p@ == "/dev/i2c-"@ + n),
        r is Err ==> (r matches Err(I2cDevError::DdcAdapterIndexUnparseable { symlink_target: t })
            && t@ == symlink_target@),
{
    proof {
        if let Some(nm) = name {
            lemma_adapter_index_exact(nm@, seq![]);
            assert forall|n: Seq<char>| nm@ == #[trigger] adapter_name(n) && decimal_index(n) implies adapter_index(nm@) == Some(n) by {
                lemma_adapter_index_exact(nm@, n);
            }
        }
    }
    let index = match name {
        Some(n) => parse_adapter_index(n),
        None => None,
    };
    match index {
        Some(index) => {
            let mut path = String::from_str("/dev/i2c-");
            path.append(index.as_str());
            Ok(path)
        },
        None => Err(
            I2cDevError::DdcAdapterIndexUnparseable {
                symlink_target: String::from_str(symlink_target),
            },
        ),
    }
}

/// Resolve a DRM connector to the path of its DDC I²C adapter device, from
/// what sysfs shows of it: whether the directory of `connector` exists, and
/// the target of its `ddc` symlink (`None` where that symlink cannot be read).
///
/// Only the final component of the target counts: the `../../..` prefix is
/// ignored, so that a change of sysfs directory depth does not break parsing.
///
/// # Errors
///
/// - `ConnectorNotFound` when the connector's directory does not exist;
/// - `ConnectorHasNoDdcAdapter` when it exists without a `ddc` symlink;
/// - `DdcAdapterIndexUnparseable` when the target's final component is not
///   `i2c-<N>`, `N` one or more ASCII digits.
pub fn connector_ddc_adapter(
    connector: &str,
    connector_present: bool,
    ddc_symlink_target: Option<&str>,
) -> (r: Result<String, I2cDevError>)
    ensures
        !connector_present ==> (r matches Err(I2cDevError::ConnectorNotFound { connector: c })
            && c@ == connector@),
        connector_present && ddc_symlink_target is None ==> (r matches Err(
            I2cDevError::ConnectorHasNoDdcAdapter { connector: c },
        ) && c@ == connector@),
        connector_present && ddc_symlink_target is Some ==> match ddc_device_path(
            ddc_symlink_target->0@,
        ) {
            Some(p) => r matches Ok(path) && path@ == p,
            None => r matches Err(I2cDevError::DdcAdapterIndexUnparseable { symlink_target: t })
                && t@ == ddc_symlink_target->0@,
        },
        r matches Ok(p) ==> is_adapter_device_node(p@),
        forall|n: Seq<char>|
            connector_present && ddc_symlink_target is Some && path_file_name(
                ddc_symlink_target->0@,
            ) == Some(#[trigger] adapter_name(n)) && decimal_index(n) ==> (r matches Ok(p) && p@
                == "/dev/i2c-"@ + n),
        r matches Ok(p) ==> (connector_present && ddc_symlink_target is Some && exists|
            n: Seq<char>,
        |
            path_file_name(ddc_symlink_target->0@) == Some(#[trigger] adapter_name(n))
                && decimal_index(n) && p@ == "/dev/i2c-"@ + n),
{
    if !connector_present {
        return Err(I2cDevError::ConnectorNotFound { connector: String::from_str(connector) });
    }
    match ddc_symlink_target {
        None => Err(
            I2cDevError::ConnectorHasNoDdcAdapter { connector: String::from_str(connector) },
        ),
        Some(target) => {
            proof {
                lemma_designated_path_is_adapter_node(target@);
                if let Some(nm) = path_file_name(target@) {
                    lemma_adapter_index_exact(nm, seq![]);
                    assert forall|n: Seq<char>| nm == #[trigger] adapter_name(n) && decimal_index(n) implies adapter_index(nm) == Some(n) by {
                        lemma_adapter_index_exact(nm, n);
                    }
                }
            }
            let name = file_name(target);
            match name {
                Some(n) => adapter_device_path(target, Some(n.as_str())),
                None => adapter_device_path(target, None),
            }
        },
    }
}

} // verus!
