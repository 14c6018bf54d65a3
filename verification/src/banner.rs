//! Text decisions of the hooked user-interface paths: the title-screen
//! version banner and the help-page request.

use crate::pattern::{ends_with, find_subsequence, occurs_at};
use vstd::prelude::*;

verus! {

/// Bytes of the marker `"Ver."` that the stock title-screen banner carries.
pub open spec fn version_marker() -> Seq<u8> {
    seq![86u8, 101u8, 114u8, 46u8]
}

/// Bytes of the banner prefix `"Smash "`.
pub open spec fn banner_prefix() -> Seq<u8> {
    seq![83u8, 109u8, 97u8, 115u8, 104u8, 32u8]
}

/// Bytes of the banner infix: a line break and `"ARCropolis Ver. "`.
pub open spec fn banner_infix() -> Seq<u8> {
    seq![
        10u8,
        65u8,
        82u8,
        67u8,
        114u8,
        111u8,
        112u8,
        111u8,
        108u8,
        105u8,
        115u8,
        32u8,
        86u8,
        101u8,
        114u8,
        46u8,
        32u8,
    ]
}

/// Bytes of the help-page directory marker `"contents.htdocs/help/html/"`.
pub open spec fn help_dir_marker() -> Seq<u8> {
    seq![
        99u8,
        111u8,
        110u8,
        116u8,
        101u8,
        110u8,
        116u8,
        115u8,
        46u8,
        104u8,
        116u8,
        100u8,
        111u8,
        99u8,
        115u8,
        47u8,
        104u8,
        101u8,
        108u8,
        112u8,
        47u8,
        104u8,
        116u8,
        109u8,
        108u8,
        47u8,
    ]
}

/// Bytes of the help index page name `"index.html"`.
pub open spec fn index_page_name() -> Seq<u8> {
    seq![105u8, 110u8, 100u8, 101u8, 120u8, 46u8, 104u8, 116u8, 109u8, 108u8]
}

fn version_marker_vec() -> (v: Vec<u8>)
    ensures
        v@ == version_marker(),
{
    let mut v: Vec<u8> = Vec::new();
    v.push(86);
    v.push(101);
    v.push(114);
    v.push(46);
    proof {
        assert(v@ =~= version_marker());
    }
    v
}

fn banner_prefix_vec() -> (v: Vec<u8>)
    ensures
        v@ == banner_prefix(),
{
    let mut v: Vec<u8> = Vec::new();
    v.push(83);
    v.push(109);
    v.push(97);
    v.push(115);
    v.push(104);
    v.push(32);
    proof {
        assert(v@ =~= banner_prefix());
    }
    v
}

fn banner_infix_vec() -> (v: Vec<u8>)
    ensures
        v@ == banner_infix(),
{
    let mut v: Vec<u8> = Vec::new();
    v.push(10);
    v.push(65);
    v.push(82);
    v.push(67);
    v.push(114);
    v.push(111);
    v.push(112);
    v.push(111);
    v.push(108);
    v.push(105);
    v.push(115);
    v.push(32);
    v.push(86);
    v.push(101);
    v.push(114);
    v.push(46);
    v.push(32);
    proof {
        assert(v@ =~= banner_infix());
    }
    v
}

fn help_dir_marker_vec() -> (v: Vec<u8>)
    ensures
        v@ == help_dir_marker(),
{
    let mut v: Vec<u8> = Vec::new();
    v.push(99);
    v.push(111);
    v.push(110);
    v.push(116);
    v.push(101);
    v.push(110);
    v.push(116);
    v.push(115);
    v.push(46);
    v.push(104);
    v.push(116);
    v.push(100);
    v.push(111);
    v.push(99);
    v.push(115);
    v.push(47);
    v.push(104);
    v.push(101);
    v.push(108);
    v.push(112);
    v.push(47);
    v.push(104);
    v.push(116);
    v.push(109);
    v.push(108);
    v.push(47);
    proof {
        assert(v@ =~= help_dir_marker());
    }
    v
}

fn index_page_name_vec() -> (v: Vec<u8>)
    ensures
        v@ == index_page_name(),
{
    let mut v: Vec<u8> = Vec::new();
    v.push(105);
    v.push(110);
    v.push(100);
    v.push(101);
    v.push(120);
    v.push(46);
    v.push(104);
    v.push(116);
    v.push(109);
    v.push(108);
    proof {
        assert(v@ =~= index_page_name());
    }
    v
}

fn copy_bytes(src: &Vec<u8>) -> (r: Vec<u8>)
    ensures
        r@ == src@,
{
    let n = src.len();
    let mut r: Vec<u8> = Vec::new();
    let mut i: usize = 0;
    while i < n
        invariant
            0 <= i <= n,
            n == src@.len(),
            r@ == src@.take(i as int),
        decreases n - i,
    {
        r.push(src[i]);
        proof {
            assert(r@ =~= src@.take(i + 1));
        }
        i = i + 1;
    }
    proof {
        assert(src@.take(n as int) =~= src@);
    }
    r
}

/// The banner shown in place of a stock banner: the prefix, the stock text,
/// the infix, the plugin version and a trailing NUL, in that order.
pub open spec fn rebuilt_banner(original: Seq<u8>, version: Seq<u8>) -> Seq<u8> {
    banner_prefix() + original + banner_infix() + version + seq![0u8]
}

/// Builds the replacement title-screen banner. A stock banner carries the
/// version marker; any string without it passes through untouched (`None`).
pub fn version_banner(original: &Vec<u8>, version: &Vec<u8>) -> (r: Option<Vec<u8>>)
    ensures
        (r is Some) <==> exists|i: int| occurs_at(original@, version_marker(), i),
        r is Some ==> r.unwrap()@ == rebuilt_banner(original@, version@),
{
    let marker = version_marker_vec();
    match find_subsequence(original.as_slice(), marker.as_slice()) {
        Some(_) => {
            let mut out = banner_prefix_vec();
            let mut body = copy_bytes(original);
            out.append(&mut body);
            let mut infix = banner_infix_vec();
            out.append(&mut infix);
            let mut ver = copy_bytes(version);
            out.append(&mut ver);
            out.push(0);
            proof {
                assert(out@ =~= rebuilt_banner(original@, version@));
            }
            Some(out)
        },
        None => None,
    }
}

/// Whether a requested help page opens the workspace selector instead of the
/// stock manual: only a page under the help directory whose path ends in the
/// index page name does.
pub open spec fn opens_selector(page: Seq<u8>) -> bool {
    &&& exists|i: int| occurs_at(page, help_dir_marker(), i)
    &&& page.len() >= index_page_name().len()
    &&& occurs_at(page, index_page_name(), page.len() - index_page_name().len())
}

/// Decides what the help-page hook does with a requested page path: `true`
/// opens the workspace selector, `false` passes the request through.
pub fn manual_page_decision(page: &Vec<u8>) -> (r: bool)
    ensures
        r == opens_selector(page@),
{
    let dir_marker = help_dir_marker_vec();
    let index_name = index_page_name_vec();
    match find_subsequence(page.as_slice(), dir_marker.as_slice()) {
        Some(_) => ends_with(page.as_slice(), index_name.as_slice()),
        None => false,
    }
}

} // verus!
