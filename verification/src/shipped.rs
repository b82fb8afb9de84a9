//! What holds of the two templates that the generated script is held
//! against: each can be read in one way only, and the only characters that
//! can blur where the payload begins or ends are whitespace.

use vstd::prelude::*;
use crate::charclass::is_space;
use crate::loader::{EXPECTED_PREFIX, EXPECTED_SUFFIX};
use crate::reading::{
    closed, lemma_walk_back_steady, lemma_walk_steady, open_takes, walk, walk_back, Open,
};
use crate::steady::{absorbs, steady};
use crate::template::compiled;

verus! {

/// Going through the expected beginning meets no clash, and leaves
/// whitespace open at the end.
#[verifier::rlimit(100)]
proof fn lemma_prefix_walk()
    ensures
        walk(EXPECTED_PREFIX@, 0, closed()) == Some(Open { space: true, ident: false }),
{
    reveal_strlit(r#""use strict";

if( typeof Rust === "undefined" ) {
    var Rust = {};
}

(function( root, factory ) {
    if( typeof define === "function" && define.amd ) {
        define( [], factory );
    } else if( typeof module === "object" && module.exports ) {
        module.exports = factory();
    } else {
        Rust.XXX = factory();
    }
}( this, function() {
    "#);
    reveal_with_fuel(walk, 48);
    let t = EXPECTED_PREFIX@;
    assert(t.len() == 363);
    assert(walk(t, 0, Open { space: false, ident: false }) == walk(t, 40, Open { space: false, ident: false }));
    assert(walk(t, 40, Open { space: false, ident: false }) == walk(t, 80, Open { space: false, ident: false }));
    assert(walk(t, 80, Open { space: false, ident: false }) == walk(t, 120, Open { space: false, ident: false }));
    assert(walk(t, 120, Open { space: false, ident: false }) == walk(t, 160, Open { space: false, ident: false }));
    assert(walk(t, 160, Open { space: false, ident: false }) == walk(t, 200, Open { space: false, ident: false }));
    assert(walk(t, 200, Open { space: false, ident: false }) == walk(t, 240, Open { space: false, ident: false }));
    assert(walk(t, 240, Open { space: false, ident: false }) == walk(t, 280, Open { space: false, ident: false }));
    assert(walk(t, 280, Open { space: false, ident: false }) == walk(t, 320, Open { space: true, ident: false }));
    assert(walk(t, 320, Open { space: true, ident: false }) == walk(t, 360, Open { space: false, ident: false }));
    assert(walk(t, 360, Open { space: false, ident: false }) == walk(t, 363, Open { space: true, ident: false }));
    assert(walk(t, 363, Open { space: true, ident: false }) == Some(Open { space: true, ident: false }));
}

/// Going back through the expected end meets no clash, and leaves
/// whitespace open at the start.
#[verifier::rlimit(100)]
proof fn lemma_suffix_walk_back()
    ensures
        walk_back(EXPECTED_SUFFIX@, 0) == Some(Open { space: true, ident: false }),
{
    reveal_strlit(r#"


    if( typeof window === "undefined" ) {
        const fs = require( "fs" );
        const path = require( "path" );
        const wasm_path = path.join( __dirname, "XXX.wasm" );
        const buffer = fs.readFileSync( wasm_path );
        const mod = new WebAssembly.Module( buffer );

        return __initialize( mod, false );
    } else {
        return fetch( "XXX.wasm" )
            .then( response => response.arrayBuffer() )
            .then( bytes => WebAssembly.compile( bytes ) )
            .then( mod => __initialize( mod, true ) );
    }
}));
"#);
    reveal_with_fuel(walk_back, 48);
    let t = EXPECTED_SUFFIX@;
    assert(t.len() == 563);
    assert(walk_back(t, 563) == Some(Open { space: false, ident: false }));
    assert(walk_back(t, 560) == Some(Open { space: false, ident: false }));
    assert(walk_back(t, 520) == Some(Open { space: false, ident: false }));
    assert(walk_back(t, 480) == Some(Open { space: false, ident: false }));
    assert(walk_back(t, 440) == Some(Open { space: true, ident: false }));
    assert(walk_back(t, 400) == Some(Open { space: true, ident: false }));
    assert(walk_back(t, 360) == Some(Open { space: false, ident: false }));
    assert(walk_back(t, 320) == Some(Open { space: false, ident: false }));
    assert(walk_back(t, 280) == Some(Open { space: false, ident: false }));
    assert(walk_back(t, 240) == Some(Open { space: true, ident: false }));
    assert(walk_back(t, 200) == Some(Open { space: false, ident: false }));
    assert(walk_back(t, 160) == Some(Open { space: false, ident: false }));
    assert(walk_back(t, 120) == Some(Open { space: true, ident: false }));
    assert(walk_back(t, 80) == Some(Open { space: true, ident: false }));
    assert(walk_back(t, 40) == Some(Open { space: true, ident: false }));
    assert(walk_back(t, 0) == Some(Open { space: true, ident: false }));
}

/// The expected beginning is steady, and what it absorbs is whitespace:
/// after a text that conforms to it, only whitespace can make a longer one.
pub proof fn lemma_prefix_steady()
    ensures
        steady(compiled(EXPECTED_PREFIX@)),
        forall|c: char| #[trigger] absorbs(compiled(EXPECTED_PREFIX@), c) == is_space(c),
{
    lemma_prefix_walk();
    lemma_walk_steady(EXPECTED_PREFIX@);
    assert forall|c: char| #[trigger] absorbs(compiled(EXPECTED_PREFIX@), c) == is_space(c) by {
        assert(open_takes(Open { space: true, ident: false }, c) == is_space(c));
    }
}

/// The expected end is steady when read from the right, and what it
/// absorbs, so read, is whitespace: before a text that conforms to it, only
/// whitespace can make a longer one.
pub proof fn lemma_suffix_steady()
    ensures
        steady(compiled(EXPECTED_SUFFIX@).reverse()),
        forall|c: char| #[trigger]
            absorbs(compiled(EXPECTED_SUFFIX@).reverse(), c) == is_space(c),
{
    lemma_suffix_walk_back();
    lemma_walk_back_steady(EXPECTED_SUFFIX@);
    assert forall|c: char| #[trigger]
        absorbs(compiled(EXPECTED_SUFFIX@).reverse(), c) == is_space(c) by {
        assert(open_takes(Open { space: true, ident: false }, c) == is_space(c));
    }
}

} // verus!
