//! The dialog queue: which text is on screen, which are still waiting,
//! and the frame step that reveals, skips and advances them. Rendering and
//! line measurement stay with the renderer; the text itself only needs the
//! break positions the renderer measured, applied by
//! [`insert_line_breaks`].

use vstd::prelude::*;

use crate::player::{PlayerState, PlayerStateMachine};

verus! {

/// The dialog's text state: the text being revealed, the queue behind it,
/// how far the reveal has come, and whether the current text is fully
/// shown.
#[derive(Clone)]
pub struct DialogState {
    /// How many bytes of `text` are revealed so far; the renderer advances
    /// it each frame.
    pub current_char: usize,
    /// The text currently on screen.
    pub text: String,
    /// The texts still queued behind it.
    pub texts: Vec<String>,
    /// The current text is fully revealed.
    pub finished: bool,
    /// The dialog box is on screen.
    pub show: bool,
}

impl DialogState {
    /// An empty dialog: nothing shown, nothing queued.
    pub fn new() -> (d: DialogState)
        ensures
            d.current_char == 0,
            d.text@.len() == 0,
            d.texts@.len() == 0,
            !d.finished,
            !d.show,
    {
        DialogState {
            current_char: 0,
            text: String::new(),
            texts: Vec::new(),
            finished: false,
            show: false,
        }
    }
}

/// One frame of the dialog while the player talks. An empty screen pulls
/// the next queued text in; a skip press reveals the current text whole; a
/// continue press on a fully revealed text pulls the next one in, or, with
/// the queue empty, closes the dialog and returns the player to idling.
/// Returns whether a new text went on screen, so the caller can re-measure
/// its line breaks.
pub fn update_dialog(
    dialog: &mut DialogState,
    player: &mut PlayerState,
    wants_to_continue: bool,
    wants_to_skip: bool,
) -> (wrapped: bool)
    ensures
        ({
            let d = *old(dialog);
            let fill = d.text@.len() == 0 && d.texts@.len() > 0;
            let text2 = if fill {
                d.texts@[0]
            } else {
                d.text
            };
            let texts2 = if fill {
                d.texts@.drop_first()
            } else {
                d.texts@
            };
            let fin2 = if fill {
                false
            } else {
                d.finished
            };
            let cur2 = if wants_to_skip {
                999int
            } else {
                d.current_char as int
            };
            let fin3 = wants_to_skip || fin2;
            let close = texts2.len() == 0 && wants_to_continue && fin3;
            let next = !close && wants_to_continue && fin3;
            &&& final(dialog).show == !close
            &&& wrapped == (fill || next)
            &&& (close ==> final(dialog).finished && final(dialog).text@.len() == 0 && final(dialog).current_char == 0 && final(dialog).texts@ == texts2 && *final(player)
                == (PlayerState {
                state: PlayerStateMachine::Idling,
                wants_to_interact: false,
                ..*old(player)
            }))
            &&& (next ==> !final(dialog).finished && final(dialog).text == texts2[0] && final(dialog).texts@ == texts2.drop_first() && final(dialog).current_char == 0 && *final(player)
                == *old(player))
            &&& (!close && !next ==> final(dialog).finished == fin3 && final(dialog).text == text2
                && final(dialog).texts@ == texts2 && final(dialog).current_char == cur2 && *final(player) == *old(player))
        }),
{
    let mut wrapped = false;
    dialog.show = true;

    if dialog.text.as_str().is_empty() && !dialog.texts.is_empty() {
        dialog.finished = false;
        let t = dialog.texts.remove(0);
        dialog.text = t;
        wrapped = true;
        proof {
            assert(old(dialog).texts@.remove(0) =~= old(dialog).texts@.drop_first());
        }
    }
    if wants_to_skip {
        dialog.current_char = 999;
        dialog.finished = true;
    }
    if dialog.texts.is_empty() && wants_to_continue && dialog.finished {
        dialog.finished = true;
        dialog.show = false;
        player.state = PlayerStateMachine::Idling;
        player.wants_to_interact = false;
        dialog.current_char = 0;
        dialog.text = String::new();
    } else if wants_to_continue && dialog.finished {
        let ghost texts2 = dialog.texts@;
        dialog.finished = false;
        let t = dialog.texts.remove(0);
        dialog.text = t;
        dialog.current_char = 0;
        wrapped = true;
        proof {
            assert(texts2.remove(0) =~= texts2.drop_first());
        }
    }
    wrapped
}

/// Replaces, in `chars`, the character at each listed index with a line
/// break; indexes beyond the end change nothing.
pub fn insert_line_breaks(chars: &Vec<char>, places: &Vec<usize>) -> (out: Vec<char>)
    ensures
        out@.len() == chars@.len(),
        forall|i: int|
            0 <= i < chars@.len() ==> out@[i] == (if places@.contains(i as usize) {
                '\n'
            } else {
                chars@[i]
            }),
{
    let mut out: Vec<char> = Vec::new();
    let n = chars.len();
    for i in 0..n
        invariant
            n == chars@.len(),
            out@.len() == i,
            forall|j: int| 0 <= j < i ==> out@[j] == chars@[j],
    {
        out.push(chars[i]);
    }
    let m = places.len();
    for k in 0..m
        invariant
            m == places@.len(),
            out@.len() == chars@.len(),
            forall|i: int|
                0 <= i < chars@.len() ==> out@[i] == (if exists|j: int|
                    0 <= j < k && places@[j] == i {
                    '\n'
                } else {
                    chars@[i]
                }),
    {
        let p = places[k];
        if p < out.len() {
            out[p] = '\n';
        }
        proof {
            assert forall|i: int| 0 <= i < chars@.len() implies out@[i] == (if exists|j: int|
                0 <= j < k + 1 && places@[j] == i {
                '\n'
            } else {
                chars@[i]
            }) by {
                if i == places@[k as int] {
                    assert(places@[k as int] == i);
                }
            }
        }
    }
    proof {
        assert forall|i: int| 0 <= i < chars@.len() implies out@[i] == (if places@.contains(
            i as usize,
        ) {
            '\n'
        } else {
            chars@[i]
        }) by {
            if places@.contains(i as usize) {
                let j = choose|j: int| 0 <= j < places@.len() && places@[j] == i as usize;
                assert(places@[j] == i);
            } else {
                assert forall|j: int| 0 <= j < places@.len() implies places@[j] != i by {
                    if places@[j] == i {
                        assert(places@[j] == i as usize);
                        assert(places@.contains(i as usize));
                    }
                }
            }
        }
    }
    out
}

} // verus!
