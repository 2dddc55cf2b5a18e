//! Formula typesetting on the page: where the page expects the KaTeX files,
//! staged next to the document, and the script that typesets the formulas
//! with them.

use vstd::prelude::*;

verus! {

/// The KaTeX stylesheet, relative to the document.
pub const KATEX_STYLESHEET_PATH: &'static str = "./katex/katex.min.css";

/// The KaTeX script, relative to the document.
pub const KATEX_SCRIPT_PATH: &'static str = "./katex/katex.min.js";

/// The script that typesets the page's formulas once it is loaded.
///
/// It looks for `$$…$$`, `\[…\]` (display) and `$…$`, `\(…\)` (inline) in
/// the text outside code, and replaces each with what `katex.render` makes
/// of it. A formula that KaTeX cannot typeset is shown in KaTeX's error
/// style (`throwOnError: false`), so the page still renders. Progress is
/// published in `window.__md2imageMathStatus` (`done`, `ok`, `error`),
/// which the renderer waits on; when the KaTeX script is absent there is
/// nothing to typeset and the status is done at once.
pub const MATH_RENDER_SCRIPT: &'static str = r#"      (function () {
        var status = { done: false, ok: true, error: null };
        window.__md2imageMathStatus = status;

        function finish(ok, error) {
          status.ok = ok;
          status.error = error;
          status.done = true;
        }

        function typeset() {
          try {
            if (!window.katex) {
              finish(true, null);
              return;
            }

            var skip = /^(CODE|PRE|SCRIPT|STYLE|TEXTAREA)$/;
            var pattern = /\$\$([\s\S]+?)\$\$|\\\[([\s\S]+?)\\\]|\\\(([\s\S]+?)\\\)|\$([^$\n]+?)\$/g;
            var walker = document.createTreeWalker(document.body, NodeFilter.SHOW_TEXT, {
              acceptNode: function (node) {
                for (var el = node.parentNode; el; el = el.parentNode) {
                  if (el.nodeType === 1 && skip.test(el.nodeName)) {
                    return NodeFilter.FILTER_REJECT;
                  }
                }
                pattern.lastIndex = 0;
                return pattern.test(node.nodeValue) ? NodeFilter.FILTER_ACCEPT : NodeFilter.FILTER_SKIP;
              }
            });

            var nodes = [];
            while (walker.nextNode()) {
              nodes.push(walker.currentNode);
            }

            nodes.forEach(function (node) {
              var text = node.nodeValue;
              var fragment = document.createDocumentFragment();
              var last = 0;
              var match;
              pattern.lastIndex = 0;
              while ((match = pattern.exec(text)) !== null) {
                fragment.appendChild(document.createTextNode(text.slice(last, match.index)));
                var display = match[1] !== undefined || match[2] !== undefined;
                var tex = match[1] || match[2] || match[3] || match[4];
                var holder = document.createElement(display ? "div" : "span");
                window.katex.render(tex, holder, { displayMode: display, throwOnError: false });
                fragment.appendChild(holder);
                last = pattern.lastIndex;
              }
              fragment.appendChild(document.createTextNode(text.slice(last)));
              node.parentNode.replaceChild(fragment, node);
            });

            finish(true, null);
          } catch (error) {
            finish(false, String((error && error.message) || error));
          }
        }

        if (document.readyState === "loading") {
          document.addEventListener("DOMContentLoaded", typeset);
        } else {
          typeset();
        }
      })();
"#;

} // verus!
