//! Building a Master Boot Image with the vendor image tool, and checking what
//! it produced.

use vstd::prelude::*;
use crate::bytes::le_word;
use crate::tool::hex::push_char;
use crate::tool::text::{join2, strings_of};

verus! {

/// The lower-case hexadecimal digit for `n < 16`.
pub open spec fn hex_digit(n: int) -> char {
    if n < 10 {
        (48 + n) as char
    } else {
        (87 + n) as char
    }
}

/// Lower-case hexadecimal digits of `n`, without leading zeros ("0" for zero).
pub open spec fn spec_hex_digits(n: nat) -> Seq<char>
    decreases n,
{
    if n < 16 {
        seq![hex_digit(n as int)]
    } else {
        spec_hex_digits(n / 16).push(hex_digit((n % 16) as int))
    }
}

/// `n` in the alternate lower-case hexadecimal form: "0x" and the digits.
pub open spec fn spec_hex_alt(n: u32) -> Seq<char> {
    seq!['0', 'x'] + spec_hex_digits(n as nat)
}

/// Formats `n` as "0x" followed by its lower-case hexadecimal digits, without
/// leading zeros.
pub fn format_hex_alt(n: u32) -> (s: String)
    ensures
        s@ == spec_hex_alt(n),
{
    let mut digits: Vec<char> = Vec::new();
    let mut m = n;
    while m >= 16
        invariant
            spec_hex_digits(n as nat) == spec_hex_digits(m as nat) + digits@.reverse(),
        decreases m,
    {
        let d = m % 16;
        let c = if d < 10 { (48 + d as u8) as char } else { (87 + d as u8) as char };
        proof {
            assert(spec_hex_digits(m as nat) == spec_hex_digits((m / 16) as nat).push(c));
            let old_d = digits@;
            assert((old_d.push(c)).reverse() =~= seq![c] + old_d.reverse());
            assert(spec_hex_digits((m / 16) as nat).push(c) + old_d.reverse() =~= spec_hex_digits(
                (m / 16) as nat,
            ) + (seq![c] + old_d.reverse()));
        }
        digits.push(c);
        m = m / 16;
    }
    let c0 = if m < 10 { (48 + m as u8) as char } else { (87 + m as u8) as char };
    digits.push(c0);
    proof {
        let old_d = digits@.drop_last();
        assert(old_d.push(c0) == digits@);
        assert(digits@.reverse() =~= seq![c0] + old_d.reverse());
    }
    let mut s = String::from_str("0x");
    proof {
        reveal_strlit("0x");
        assert(s@ =~= seq!['0', 'x']);
    }
    let n_d = digits.len();
    let mut i = n_d;
    while i > 0
        invariant
            i <= n_d,
            n_d == digits@.len(),
            s@ == seq!['0', 'x'] + digits@.reverse().take((n_d - i) as int),
        decreases i,
    {
        i = i - 1;
        push_char(&mut s, digits[i]);
        assert(digits@.reverse()[(n_d - 1 - i) as int] == digits@[i as int]);
        assert(digits@.reverse().take((n_d - i) as int) =~= digits@.reverse().take(
            (n_d - 1 - i) as int,
        ).push(digits@[i as int]));
    }
    assert(digits@.reverse().take(n_d as int) =~= digits@.reverse());
    s
}

/// The image-tool configuration for a bootloader or an application image.
pub fn mbi_config_path(is_bootloader: bool) -> (r: &'static str)
    ensures
        r@ == (if is_bootloader {
            "artifacts/mbi-bootloader.yaml"@
        } else {
            "artifacts/mbi-application.yaml"@
        }),
{
    if is_bootloader {
        "artifacts/mbi-bootloader.yaml"
    } else {
        "artifacts/mbi-application.yaml"
    }
}

/// The arguments of the image tool's MBI export.
pub open spec fn spec_mbi_export_args(
    config_path: Seq<char>,
    input_file: Seq<char>,
    output_file: Seq<char>,
    base_addr: u32,
) -> Seq<Seq<char>> {
    seq![
        "mbi"@,
        "export"@,
        "-c"@,
        config_path,
        "-oc"@,
        "inputImageFile="@ + input_file,
        "-oc"@,
        "masterBootOutputFile="@ + output_file,
        "-oc"@,
        "outputImageExecutionAddress="@ + spec_hex_alt(base_addr),
    ]
}

/// The arguments that make the image tool export an MBI from the image in
/// `input_file` to `output_file`, executing at `base_addr`. The configuration
/// overrides are given in key order.
pub fn mbi_export_args(config_path: &str, input_file: &str, output_file: &str, base_addr: u32) -> (r:
    Vec<String>)
    ensures
        r@.len() == 10,
        forall|i: int| 0 <= i < 10 ==> (#[trigger] r@[i])@ == spec_mbi_export_args(
            config_path@,
            input_file@,
            output_file@,
            base_addr,
        )[i],
{
    let mut r = strings_of(&["mbi", "export", "-c", config_path, "-oc"]);
    r.push(join2("inputImageFile=", input_file));
    r.push(String::from_str("-oc"));
    r.push(join2("masterBootOutputFile=", output_file));
    r.push(String::from_str("-oc"));
    let addr = format_hex_alt(base_addr);
    r.push(join2("outputImageExecutionAddress=", addr.as_str()));
    r
}

/// Most bytes signing may add to an image.
pub const MAX_ADDED_LEN: usize = 0x744;

/// Image type of a signed bootloader image.
pub const IMAGE_TYPE_BOOTLOADER: u32 = 0x4001;

/// Image type of a signed application image.
pub const IMAGE_TYPE_APPLICATION: u32 = 0x4004;

/// Why the produced MBI is not accepted.
#[derive(Debug, PartialEq, Eq, Structural, Clone, Copy)]
pub enum MbiError {
    /// More than [`MAX_ADDED_LEN`] bytes were added to the image.
    TooMuchAdded,
    /// The image type word (at offset 0x24) is not the expected one.
    UnexpectedImageType { expected: u32, actual: u32 },
}

/// The image type expected of a bootloader or an application image.
pub open spec fn expected_image_type(is_bootloader: bool) -> u32 {
    if is_bootloader {
        IMAGE_TYPE_BOOTLOADER
    } else {
        IMAGE_TYPE_APPLICATION
    }
}

/// The image type word of an MBI, little-endian at offset 0x24.
pub open spec fn image_type_of(out: Seq<u8>) -> u32 {
    le_word(out[0x24], out[0x25], out[0x26], out[0x27])
}

/// The checks on the produced MBI.
pub open spec fn spec_check_mbi_output(out: Seq<u8>, input_len: nat, is_bootloader: bool) -> Result<
    (),
    MbiError,
> {
    if out.len() - input_len > MAX_ADDED_LEN {
        Err(MbiError::TooMuchAdded)
    } else if image_type_of(out) != expected_image_type(is_bootloader) {
        Err(MbiError::UnexpectedImageType {
            expected: expected_image_type(is_bootloader),
            actual: image_type_of(out),
        })
    } else {
        Ok(())
    }
}

/// Checks the MBI produced from an image of `input_len` bytes: at most 0x744
/// bytes were added and the image type is 0x4001 for a bootloader, 0x4004 for
/// an application.
pub fn check_mbi_output(output: &[u8], input_len: usize, is_bootloader: bool) -> (r: Result<
    (),
    MbiError,
>)
    requires
        input_len <= output@.len(),
        output@.len() - input_len <= MAX_ADDED_LEN ==> 0x28 <= output@.len(),
    ensures
        r == spec_check_mbi_output(output@, input_len as nat, is_bootloader),
{
    let diff_len = output.len() - input_len;
    if diff_len > MAX_ADDED_LEN {
        return Err(MbiError::TooMuchAdded);
    }
    let expected = if is_bootloader { IMAGE_TYPE_BOOTLOADER } else { IMAGE_TYPE_APPLICATION };
    let actual = crate::bytes::word_from_le(output[0x24], output[0x25], output[0x26], output[0x27]);
    if actual != expected {
        return Err(MbiError::UnexpectedImageType { expected, actual });
    }
    Ok(())
}

} // verus!
