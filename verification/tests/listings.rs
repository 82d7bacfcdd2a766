//! End-to-end fixtures: byte buffers and the exact listing text they
//! decode to.

use sim8086::{disassemble, Machine};

fn decode(bytes: &[u8]) -> String {
    let mut machine = Machine::new();
    let out = disassemble(bytes, &mut machine, false, false);
    assert_eq!(out.error, None);
    out.text
}

#[test]
fn listing_37() {
    // mov cx, bx
    let buffer = vec![0x89, 0xd9];
    assert_eq!(decode(&buffer), "bits 16\n\nmov cx, bx\n");
}

#[test]
fn listing_38() {
    let buffer = vec![
        0x89, 0xd9, // mov cx, bx
        0x88, 0xe5, // mov ch, ah
        0x89, 0xda, // mov dx, bx
        0x89, 0xde, // mov si, bx
        0x89, 0xfb, // mov bx, di
        0x88, 0xc8, // mov al, cl
        0x88, 0xed, // mov ch, ch
        0x89, 0xc3, // mov bx, ax
        0x89, 0xf3, // mov bx, si
        0x89, 0xfc, // mov sp, di
        0x89, 0xc5, // mov bp, ax
    ];
    assert_eq!(
        decode(&buffer),
        r#"bits 16

mov cx, bx
mov ch, ah
mov dx, bx
mov si, bx
mov bx, di
mov al, cl
mov ch, ch
mov bx, ax
mov bx, si
mov sp, di
mov bp, ax
"#
    );
}

#[test]
fn listing_39() {
    let buffer = vec![
        0x89, 0xde, // mov si, bx
        0x88, 0xc6, // mov dh, al
        0xb1, 0x0c, // mov cl, 12
        0xb5, 0xf4, // mov ch, -12
        0xb9, 0x0c, 0x00, // mov cx, 12
        0xb9, 0xf4, 0xff, // mov cx, -12
        0xba, 0x6c, 0x0f, // mov dx, 3948
        0xba, 0x94, 0xf0, // mov dx, -3948
        0x8a, 0x00, // mov al, [bx + si]
        0x8b, 0x1b, // mov bx, [bp + di]
        0x8b, 0x56, 0x00, // mov dx, [bp]
        0x8a, 0x60, 0x04, // mov ah, [bx + si + 4]
        0x8a, 0x80, 0x87, 0x13, // mov al, [bx + si + 4999]
        0x89, 0x09, // mov [bx + di], cx
        0x88, 0x0a, // mov [bp + si], cl
        0x88, 0x6e, 0x00, // mov [bp], ch
    ];
    assert_eq!(
        decode(&buffer),
        r#"bits 16

mov si, bx
mov dh, al
mov cl, 12
mov ch, -12
mov cx, 12
mov cx, -12
mov dx, 3948
mov dx, -3948
mov al, [bx + si]
mov bx, [bp + di]
mov dx, [bp]
mov ah, [bx + si + 4]
mov al, [bx + si + 4999]
mov [bx + di], cx
mov [bp + si], cl
mov [bp], ch
"#
    );
}

#[test]
fn listing_40() {
    let buffer = vec![
        0x8b, 0x41, 0xdb, // mov ax, [bx + di - 37]
        0x89, 0x8c, 0xd4, 0xfe, // mov [si - 300], cx
        0x8b, 0x57, 0xe0, // mov dx, [bx - 32]
        0xc6, 0x03, 0x07, // mov [bp + di], byte 7
        0xc7, 0x85, 0x85, 0x03, 0x5b, 0x01, // mov [di + 901], word 347
        0x8b, 0x2e, 0x05, 0x00, // mov bp, [5]
        0x8b, 0x1e, 0x82, 0x0d, // mov bx, [3458]
        0xa1, 0xfb, 0x09, // mov ax, [2555]
        0xa1, 0x10, 0x00, // mov ax, [16]
        0xa3, 0xfa, 0x09, // mov [2554], ax
        0xa3, 0x0f, 0x00, // mov [15], ax
    ];
    assert_eq!(
        decode(&buffer),
        r#"bits 16

mov ax, [bx + di - 37]
mov [si - 300], cx
mov dx, [bx - 32]
mov [bp + di], byte 7
mov [di + 901], word 347
mov bp, [5]
mov bx, [3458]
mov ax, [2555]
mov ax, [16]
mov [2554], ax
mov [15], ax
"#
    );
}

#[test]
fn listing_41() {
    let buffer = vec![
        0x03, 0x18, // add bx, [bx + si]
        0x03, 0x5e, 0x00, // add bx, [bp]
        0x83, 0xc6, 0x02, // add si, 2
        0x83, 0xc5, 0x02, // add bp, 2
        0x83, 0xc1, 0x08, // add cx, 8
        0x03, 0x5e, 0x00, // add bx, [bp]
        0x03, 0x4f, 0x02, // add cx, [bx + 2]
        0x02, 0x7a, 0x04, // add bh, [bp + si + 4]
        0x03, 0x7b, 0x06, // add di, [bp + di + 6]
        0x01, 0x18, // add [bx + si], bx
        0x01, 0x5e, 0x00, // add [bp], bx
        0x01, 0x5e, 0x00, // add [bp], bx
        0x01, 0x4f, 0x02, // add [bx + 2], cx
        0x00, 0x7a, 0x04, // add [bp + si + 4], bh
        0x01, 0x7b, 0x06, // add [bp + di + 6], di
        0x80, 0x07, 0x22, // add byte [bx], 34
        0x83, 0x82, 0xe8, 0x03, 0x1d, // add word [bp + si + 1000], 29
        0x03, 0x46, 0x00, // add ax, [bp]
        0x02, 0x00, // add al, [bx + si]
        0x01, 0xd8, // add ax, bx
        0x00, 0xe0, // add al, ah
        0x05, 0xe8, 0x03, // add ax, 1000
        0x04, 0xe2, // add al, -30
        0x04, 0x09, // add al, 9
        0x2b, 0x18, // sub bx, [bx + si]
        0x2b, 0x5e, 0x00, // sub bx, [bp]
        0x83, 0xee, 0x02, // sub si, 2
        0x83, 0xed, 0x02, // sub bp, 2
        0x83, 0xe9, 0x08, // sub cx, 8
        0x2b, 0x5e, 0x00, // sub bx, [bp]
        0x2b, 0x4f, 0x02, // sub cx, [bx + 2]
        0x2a, 0x7a, 0x04, // sub bh, [bp + si + 4]
        0x2b, 0x7b, 0x06, // sub di, [bp + di + 6]
        0x29, 0x18, // sub [bx + si], bx
        0x29, 0x5e, 0x00, // sub [bp], bx
        0x29, 0x5e, 0x00, // sub [bp], bx
        0x29, 0x4f, 0x02, // sub [bx + 2], cx
        0x28, 0x7a, 0x04, // sub [bp + si + 4], bh
        0x29, 0x7b, 0x06, // sub [bp + di + 6], di
        0x80, 0x2f, 0x22, // sub byte [bx], 34
        0x83, 0x29, 0x1d, // sub word [bx + di], 29
        0x2b, 0x46, 0x00, // sub ax, [bp]
        0x2a, 0x00, // sub al, [bx + si]
        0x29, 0xd8, // sub ax, bx
        0x28, 0xe0, // sub al, ah
        0x2d, 0xe8, 0x03, // sub ax, 1000
        0x2c, 0xe2, // sub al, -30
        0x2c, 0x09, // sub al, 9
        0x3b, 0x18, // cmp bx, [bx + si]
        0x3b, 0x5e, 0x00, // cmp bx, [bp]
        0x83, 0xfe, 0x02, // cmp si, 2
        0x83, 0xfd, 0x02, // cmp bp, 2
        0x83, 0xf9, 0x08, // cmp cx, 8
        0x3b, 0x5e, 0x00, // cmp bx, [bp]
        0x3b, 0x4f, 0x02, // cmp cx, [bx + 2]
        0x3a, 0x7a, 0x04, // cmp bh, [bp + si + 4]
        0x3b, 0x7b, 0x06, // cmp di, [bp + di + 6]
        0x39, 0x18, // cmp [bx + si], bx
        0x39, 0x5e, 0x00, // cmp [bp], bx
        0x39, 0x5e, 0x00, // cmp [bp], bx
        0x39, 0x4f, 0x02, // cmp [bx + 2], cx
        0x38, 0x7a, 0x04, // cmp [bp + si + 4], bh
        0x39, 0x7b, 0x06, // cmp [bp + di + 6], di
        0x80, 0x3f, 0x22, // cmp byte [bx], 34
        0x83, 0x3e, 0xe2, 0x12, 0x1d, // cmp word [4834], 29
        0x3b, 0x46, 0x00, // cmp ax, [bp]
        0x3a, 0x00, // cmp al, [bx + si]
        0x39, 0xd8, // cmp ax, bx
        0x38, 0xe0, // cmp al, ah
        0x3d, 0xe8, 0x03, // cmp ax, 1000
        0x3c, 0xe2, // cmp al, -30
        0x3c, 0x09, // cmp al, 9
        0x75, 0x02, // jne 2
        0x75, 0xfc, // jne -4
        0x75, 0xfa, // jne -6
        0x75, 0xfc, // jne -4
        0x74, 0xfe, // je -2
        0x7c, 0xfc, // jl -4
        0x7e, 0xfa, // jle -6
        0x72, 0xf8, // jb -8
        0x76, 0xf6, // jbe -10
        0x7a, 0xf4, // jp -12
        0x70, 0xf2, // jo -14
        0x78, 0xf0, // js -16
        0x75, 0xee, // jne -18
        0x7d, 0xec, // jnl -20
        0x7f, 0xea, // jnle -22
        0x73, 0xe8, // jnb -24
        0x77, 0xe6, // jnbe -26
        0x7b, 0xe4, // jnp -28
        0x71, 0xe2, // jno -30
        0x79, 0xe0, // jns -32
        0xe2, 0xde, // loop -34
        0xe1, 0xdc, // loopz -36
        0xe0, 0xda, // loopnz -38
        0xe3, 0xd8, // jcxz -40
    ];
    assert_eq!(
        decode(&buffer),
        r#"bits 16

add bx, [bx + si]
add bx, [bp]
add si, 2
add bp, 2
add cx, 8
add bx, [bp]
add cx, [bx + 2]
add bh, [bp + si + 4]
add di, [bp + di + 6]
add [bx + si], bx
add [bp], bx
add [bp], bx
add [bx + 2], cx
add [bp + si + 4], bh
add [bp + di + 6], di
add byte [bx], 34
add word [bp + si + 1000], 29
add ax, [bp]
add al, [bx + si]
add ax, bx
add al, ah
add ax, 1000
add al, -30
add al, 9
sub bx, [bx + si]
sub bx, [bp]
sub si, 2
sub bp, 2
sub cx, 8
sub bx, [bp]
sub cx, [bx + 2]
sub bh, [bp + si + 4]
sub di, [bp + di + 6]
sub [bx + si], bx
sub [bp], bx
sub [bp], bx
sub [bx + 2], cx
sub [bp + si + 4], bh
sub [bp + di + 6], di
sub byte [bx], 34
sub word [bx + di], 29
sub ax, [bp]
sub al, [bx + si]
sub ax, bx
sub al, ah
sub ax, 1000
sub al, -30
sub al, 9
cmp bx, [bx + si]
cmp bx, [bp]
cmp si, 2
cmp bp, 2
cmp cx, 8
cmp bx, [bp]
cmp cx, [bx + 2]
cmp bh, [bp + si + 4]
cmp di, [bp + di + 6]
cmp [bx + si], bx
cmp [bp], bx
cmp [bp], bx
cmp [bx + 2], cx
cmp [bp + si + 4], bh
cmp [bp + di + 6], di
cmp byte [bx], 34
cmp word [4834], 29
cmp ax, [bp]
cmp al, [bx + si]
cmp ax, bx
cmp al, ah
cmp ax, 1000
cmp al, -30
cmp al, 9
jne 2
jne -4
jne -6
jne -4
je -2
jl -4
jle -6
jb -8
jbe -10
jp -12
jo -14
js -16
jne -18
jnl -20
jnle -22
jnb -24
jnbe -26
jnp -28
jno -30
jns -32
loop -34
loopz -36
loopnz -38
jcxz -40
"#
    );
}

#[test]
fn zero_word_displacement_is_printed() {
    // mode 10 with a zero 16-bit displacement keeps the " + 0" text,
    // unlike the omitted zero byte displacement
    let buffer = vec![0x8b, 0x96, 0x00, 0x00];
    assert_eq!(decode(&buffer), "bits 16\n\nmov dx, [bp + 0]\n");
}

#[test]
fn zero_byte_displacement_is_omitted() {
    let buffer = vec![0x8b, 0x56, 0x00];
    assert_eq!(decode(&buffer), "bits 16\n\nmov dx, [bp]\n");
}
