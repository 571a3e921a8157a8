# global_overlay

A window that a system-wide Shift+Tab shows over whatever is in front, and hides again, giving the
focus back to the application that had it.

`src/` is the library, verified with Verus. It decides and makes no system call: for each platform
there is a machine that names the next request to make of the system and takes the reply. `app/`
performs the requests, with GPUI, x11rb, Win32, Carbon and Cocoa. `tests/` runs the library.
